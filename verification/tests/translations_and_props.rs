use rosemary::client::component_props::{FooterProps, MetaProps, NavbarProps};
use rosemary::client::localization::page_translations;
use rosemary::client::translations::{get_translation, Language, TranslationKeys};
use rosemary::config::load::Config;
use rosemary::frontend::index::nbsp_expand;

fn sample_config() -> Config {
    Config {
        database_url: String::from("postgres://localhost/rosemary"),
        database_cert_path: String::from("/certs/root.crt"),
        static_files_dir: String::from("/srv/static"),
        static_files_url: String::from("https://static.example.com"),
        jwt_secret: String::from("not-a-real-value"),
        register_user_secret: String::from("not-a-real-value"),
        database_cert_provided: false,
        user_action_daily: 5,
        mailer_send_token: String::from("not-a-real-value"),
        app_base_url: String::from("https://www.example.com"),
    }
}

#[test]
fn language_codes() {
    assert_eq!(Language::Cs.to_str(), "cs");
    assert_eq!(Language::En.to_str(), "en");
    assert_eq!(Language::Cs.to_string(), String::from("cs"));
    assert_eq!(Language::En.to_string(), String::from("en"));
}

#[test]
fn translations_resolve() {
    assert_eq!(get_translation(TranslationKeys::Home, Language::Cs), "domů");
    assert_eq!(get_translation(TranslationKeys::Home, Language::En), "home");
    assert_eq!(get_translation(TranslationKeys::Gallery, Language::Cs), "galerie");
    assert_eq!(get_translation(TranslationKeys::FAQ, Language::En), "FAQ");
    assert_eq!(get_translation(TranslationKeys::Width, Language::Cs), "šířka");
}

#[test]
fn table_lookup_matches_free_lookup() {
    let table = page_translations();
    assert_eq!(
        table.get_translation(TranslationKeys::Contact, Language::En),
        get_translation(TranslationKeys::Contact, Language::En)
    );
    assert_eq!(
        table.get_translation(TranslationKeys::Sold, Language::Cs),
        "prodáno"
    );
}

#[test]
fn meta_props_defaults() {
    let config = sample_config();
    let meta = MetaProps::default(Some(Language::En), Some(&config));
    assert_eq!(meta.locale, "en");
    assert_eq!(meta.url, "www.rosemary-artist.com/en");
    assert_eq!(meta.static_base_url, "https://static.example.com");
    assert_eq!(meta.robots, "index, follow");

    let bare = MetaProps::default(None, None);
    assert_eq!(bare.locale, "cs");
    assert_eq!(bare.url, "www.rosemary-artist.com/cs");
    assert_eq!(bare.static_base_url, "");
}

#[test]
fn navbar_and_footer_defaults() {
    let navbar = NavbarProps::default(Some(Language::Cs));
    assert_eq!(navbar.home, "domů");
    assert_eq!(navbar.contact, "kontakt");

    let footer = FooterProps::default(None);
    assert_eq!(footer.navigation, "navigace");
    assert_eq!(footer.faq, "často kladené otázky");

    let footer_en = FooterProps::default(Some(Language::En));
    assert_eq!(footer_en.upcoming_events, "upcoming events");
}

#[test]
fn descriptions_widen_spaces() {
    assert_eq!(nbsp_expand("a_b"), "a&nbsp;b");
    assert_eq!(nbsp_expand("no underscores"), "no underscores");
    assert_eq!(nbsp_expand("__"), "&nbsp;&nbsp;");
    assert_eq!(nbsp_expand(""), "");
}
