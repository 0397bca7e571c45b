use vstd::prelude::*;

use crate::client::localization::spec_default_translation;
use crate::client::translations::{
    get_translation, spec_lang_code, spec_lang_or_default, Language, TranslationKeys,
};
use crate::config::load::Config;

verus! {

/// The metadata block every rendered page carries in its head.
#[derive(Debug)]
pub struct MetaProps<'a> {
    pub description: &'a str,
    pub keywords: &'a str,
    pub author: &'a str,
    pub robots: &'a str,
    pub image: &'a str,
    pub locale: String,
    pub favicon: &'a str,
    pub summary_large_image: &'a str,
    pub twitter_handle: &'a str,
    pub url: String,
    pub static_base_url: String,
}

impl<'a> MetaProps<'a> {
    /// The metadata a page starts from: the site's own description, the
    /// requested language's locale and URL, and the static-files base URL
    /// out of the configuration where one is loaded, empty otherwise.
    pub fn default(language: Option<Language>, config: Option<&Config>) -> (r: Self)
        ensures
            r.description@ == ""@,
            r.keywords@
                == "Rosemary, Michaela, Halásová, malíř, painter, fotograf, photograph, abstract oil paintings, weddings"@,
            r.author@ == "Rosemary - Michaela Halásová"@,
            r.robots@ == "index, follow"@,
            r.image@ == ""@,
            r.locale@ == spec_lang_code(spec_lang_or_default(language)),
            r.favicon@ == ""@,
            r.summary_large_image@ == ""@,
            r.twitter_handle@ == ""@,
            r.url@ == "www.rosemary-artist.com/"@ + spec_lang_code(spec_lang_or_default(language)),
            match config {
                Some(c) => r.static_base_url@ == c.static_files_url@,
                None => r.static_base_url@ == ""@,
            },
    {
        proof {
            reveal_strlit("");
        }
        let lang = match language {
            Some(language_enum) => language_enum,
            None => Language::Cs,
        };

        let static_base_url = match config {
            Some(c) => c.static_files_url.clone(),
            None => String::new(),
        };
        proof {
            if config is None {
                assert(static_base_url@ =~= ""@);
            }
        }

        MetaProps {
            description: "",
            keywords: "Rosemary, Michaela, Halásová, malíř, painter, fotograf, photograph, abstract oil paintings, weddings",
            author: "Rosemary - Michaela Halásová",
            robots: "index, follow",
            image: "",
            locale: lang.to_string(),
            favicon: "",
            summary_large_image: "",
            twitter_handle: "",
            url: String::from_str("www.rosemary-artist.com/").concat(lang.to_str()),
            static_base_url,
        }
    }
}

/// The navigation bar's captions.
#[derive(Debug)]
pub struct NavbarProps<'a> {
    pub home: &'a str,
    pub gallery: &'a str,
    pub photo: &'a str,
    pub blog: &'a str,
    pub contact: &'a str,
}

impl<'a> NavbarProps<'a> {
    /// The captions in the requested language.
    pub fn default(language: Option<Language>) -> (r: Self)
        ensures
            r.home@ == spec_default_translation(
                TranslationKeys::Home,
                spec_lang_or_default(language),
            ),
            r.gallery@ == spec_default_translation(
                TranslationKeys::Gallery,
                spec_lang_or_default(language),
            ),
            r.photo@ == spec_default_translation(
                TranslationKeys::Photo,
                spec_lang_or_default(language),
            ),
            r.blog@ == spec_default_translation(
                TranslationKeys::Blog,
                spec_lang_or_default(language),
            ),
            r.contact@ == spec_default_translation(
                TranslationKeys::Contact,
                spec_lang_or_default(language),
            ),
    {
        let lang = match language {
            Some(language_enum) => language_enum,
            None => Language::Cs,
        };

        NavbarProps {
            home: get_translation(TranslationKeys::Home, lang),
            gallery: get_translation(TranslationKeys::Gallery, lang),
            photo: get_translation(TranslationKeys::Photo, lang),
            blog: get_translation(TranslationKeys::Blog, lang),
            contact: get_translation(TranslationKeys::Contact, lang),
        }
    }
}

/// The footer's captions.
#[derive(Debug)]
pub struct FooterProps<'a> {
    pub upcoming_events: &'a str,
    pub photo_pricing: &'a str,
    pub photo_reservation: &'a str,
    pub home: &'a str,
    pub gallery: &'a str,
    pub blog: &'a str,
    pub contact: &'a str,
    pub faq: &'a str,
    pub navigation: &'a str,
}

impl<'a> FooterProps<'a> {
    /// The captions in the requested language.
    pub fn default(language: Option<Language>) -> (r: Self)
        ensures
            r.upcoming_events@ == spec_default_translation(
                TranslationKeys::UpcomingEvents,
                spec_lang_or_default(language),
            ),
            r.photo_pricing@ == spec_default_translation(
                TranslationKeys::PhotoPricing,
                spec_lang_or_default(language),
            ),
            r.photo_reservation@ == spec_default_translation(
                TranslationKeys::PhotoReservation,
                spec_lang_or_default(language),
            ),
            r.home@ == spec_default_translation(
                TranslationKeys::Home,
                spec_lang_or_default(language),
            ),
            r.gallery@ == spec_default_translation(
                TranslationKeys::Gallery,
                spec_lang_or_default(language),
            ),
            r.blog@ == spec_default_translation(
                TranslationKeys::Blog,
                spec_lang_or_default(language),
            ),
            r.contact@ == spec_default_translation(
                TranslationKeys::Contact,
                spec_lang_or_default(language),
            ),
            r.faq@ == spec_default_translation(
                TranslationKeys::FAQ,
                spec_lang_or_default(language),
            ),
            r.navigation@ == spec_default_translation(
                TranslationKeys::Navigation,
                spec_lang_or_default(language),
            ),
    {
        let lang = match language {
            Some(language_enum) => language_enum,
            None => Language::Cs,
        };

        FooterProps {
            upcoming_events: get_translation(TranslationKeys::UpcomingEvents, lang),
            photo_pricing: get_translation(TranslationKeys::PhotoPricing, lang),
            photo_reservation: get_translation(TranslationKeys::PhotoReservation, lang),
            home: get_translation(TranslationKeys::Home, lang),
            gallery: get_translation(TranslationKeys::Gallery, lang),
            blog: get_translation(TranslationKeys::Blog, lang),
            contact: get_translation(TranslationKeys::Contact, lang),
            faq: get_translation(TranslationKeys::FAQ, lang),
            navigation: get_translation(TranslationKeys::Navigation, lang),
        }
    }
}

} // verus!
