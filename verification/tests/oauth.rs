use tunnel_config::oauth::{OauthOptions, OauthProvider};
use tunnel_config::proto::Oauth;

#[test]
fn provider_names_are_the_fixed_lowercase_identifiers() {
    assert_eq!(OauthProvider::Amazon.name(), "amazon");
    assert_eq!(OauthProvider::Facebook.name(), "facebook");
    assert_eq!(OauthProvider::GitHub.name(), "github");
    assert_eq!(OauthProvider::GitLab.name(), "gitlab");
    assert_eq!(OauthProvider::Google.name(), "google");
    assert_eq!(OauthProvider::LinkedIn.name(), "linkedin");
    assert_eq!(OauthProvider::Microsoft.name(), "microsoft");
    assert_eq!(OauthProvider::Twitch.name(), "twitch");
}

#[test]
fn translation_is_a_pure_structural_copy() {
    let opts = OauthOptions::new(OauthProvider::GitHub)
        .client_id(String::from("first-id"))
        .client_id(String::from("second-id"))
        .allow_email(String::from("a@example.com"))
        .allow_email(String::from("a@example.com"))
        .allow_domain(String::from("example.com"))
        .scope(String::from("read"))
        .scope(String::from("write"))
        .scope(String::from("read"));
    let wire = Oauth::from_options(opts);
    assert_eq!(wire.provider, "github");
    assert_eq!(wire.client_id, "second-id");
    assert_eq!(
        wire.allow_emails,
        vec![String::from("a@example.com"), String::from("a@example.com")]
    );
    assert_eq!(wire.allow_domains, vec![String::from("example.com")]);
    assert_eq!(
        wire.scopes,
        vec![String::from("read"), String::from("write"), String::from("read")]
    );
    assert_eq!(wire.sealed_client_secret, "");
}

#[test]
fn defaults_survive_translation_untouched() {
    let wire = Oauth::from_options(OauthOptions::new(OauthProvider::Google));
    assert_eq!(wire.provider, "google");
    assert_eq!(wire.client_id, "");
    assert_eq!(wire.client_secret.transmission_value(), "");
    assert_eq!(wire.sealed_client_secret, "");
    assert!(wire.allow_emails.is_empty());
    assert!(wire.allow_domains.is_empty());
    assert!(wire.scopes.is_empty());
}

#[test]
fn client_secret_last_write_wins() {
    let opts = OauthOptions::new(OauthProvider::Twitch)
        .client_secret(String::from("first"))
        .client_secret(String::from("second"));
    let wire = Oauth::from_options(opts);
    assert_eq!(wire.client_secret.transmission_value(), "second");
}
