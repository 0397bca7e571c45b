use vstd::prelude::*;

verus! {

/// One translated phrase, carried in both languages the site serves.
pub struct PageTranslation {
    pub en: &'static str,
    pub cs: &'static str,
}

/// The two languages the site is rendered in.
#[derive(Copy, Debug, Clone)]
pub enum Language {
    En,
    Cs,
}

/// The language a request falls back to when none was named.
pub open spec fn spec_lang_or_default(language: Option<Language>) -> Language {
    match language {
        Some(l) => l,
        None => Language::Cs,
    }
}

/// The language code, as a spec-level sequence of characters.
pub open spec fn spec_lang_code(lang: Language) -> Seq<char> {
    match lang {
        Language::Cs => "cs"@,
        Language::En => "en"@,
    }
}

impl Language {
    /// The two-letter code used in URLs and query strings.
    pub fn to_str(&self) -> (r: &'static str)
        ensures
            r@ == spec_lang_code(*self),
    {
        match self {
            Language::Cs => "cs",
            Language::En => "en",
        }
    }

    /// The same code as an owned string.
    pub fn to_string(&self) -> (r: String)
        ensures
            r@ == spec_lang_code(*self),
    {
        match self {
            Language::Cs => String::from_str("cs"),
            Language::En => String::from_str("en"),
        }
    }
}

/// Every phrase the templates ask for.
#[derive(Copy, Debug, Clone)]
pub enum TranslationKeys {
    Ascending,
    Back,
    Blog,
    Buy,
    Created,
    Contact,
    Close,
    Descending,
    Email,
    FAQ,
    Filter,
    FullName,
    Gallery,
    GalleryTitle,
    General,
    Height,
    Home,
    IndexTitle,
    IndexHeroAlt,
    IndexPicturAlt,
    IndexDescription,
    IndexMetaDescription,
    IndexMetaKeywords,
    IndexMetaImageSummary,
    Message,
    Name,
    Navigation,
    Next,
    Painting,
    Phone,
    Photo,
    Photography,
    PhotoPricing,
    PhotoReservation,
    Prev,
    Price,
    Send,
    Sold,
    Subject,
    Title,
    UpcomingEvents,
    Width,
}

/// The full translation table, one phrase per key.
pub struct PageTranslations {
    pub ascending: PageTranslation,
    pub blog: PageTranslation,
    pub buy: PageTranslation,
    pub created: PageTranslation,
    pub contact: PageTranslation,
    pub close: PageTranslation,
    pub descending: PageTranslation,
    pub email: PageTranslation,
    pub faq: PageTranslation,
    pub filter: PageTranslation,
    pub full_name: PageTranslation,
    pub gallery: PageTranslation,
    pub gallery_title: PageTranslation,
    pub general: PageTranslation,
    pub height: PageTranslation,
    pub home: PageTranslation,
    pub index_title: PageTranslation,
    pub index_hero_alt: PageTranslation,
    pub index_picture_alt: PageTranslation,
    pub index_description: PageTranslation,
    pub index_meta_description: PageTranslation,
    pub index_meta_keywords: PageTranslation,
    pub index_meta_image_summary: PageTranslation,
    pub message: PageTranslation,
    pub name: PageTranslation,
    pub navigation: PageTranslation,
    pub next: PageTranslation,
    pub painting: PageTranslation,
    pub phone: PageTranslation,
    pub photo: PageTranslation,
    pub photography: PageTranslation,
    pub photo_pricing: PageTranslation,
    pub photo_reservation: PageTranslation,
    pub prev: PageTranslation,
    pub price: PageTranslation,
    pub send: PageTranslation,
    pub sold: PageTranslation,
    pub subject: PageTranslation,
    pub title: PageTranslation,
    pub upcoming_events: PageTranslation,
    pub width: PageTranslation,
    pub back: PageTranslation,
}

impl PageTranslations {
    /// The table entry that belongs to `key`.
    pub open spec fn spec_entry(&self, key: TranslationKeys) -> PageTranslation {
        match key {
            TranslationKeys::Ascending => self.ascending,
            TranslationKeys::Back => self.back,
            TranslationKeys::Blog => self.blog,
            TranslationKeys::Buy => self.buy,
            TranslationKeys::Created => self.created,
            TranslationKeys::Contact => self.contact,
            TranslationKeys::Close => self.close,
            TranslationKeys::Descending => self.descending,
            TranslationKeys::Email => self.email,
            TranslationKeys::FAQ => self.faq,
            TranslationKeys::Filter => self.filter,
            TranslationKeys::FullName => self.full_name,
            TranslationKeys::Gallery => self.gallery,
            TranslationKeys::GalleryTitle => self.gallery_title,
            TranslationKeys::General => self.general,
            TranslationKeys::Height => self.height,
            TranslationKeys::Home => self.home,
            TranslationKeys::IndexTitle => self.index_title,
            TranslationKeys::IndexHeroAlt => self.index_hero_alt,
            TranslationKeys::IndexPicturAlt => self.index_picture_alt,
            TranslationKeys::IndexDescription => self.index_description,
            TranslationKeys::IndexMetaDescription => self.index_meta_description,
            TranslationKeys::IndexMetaKeywords => self.index_meta_keywords,
            TranslationKeys::IndexMetaImageSummary => self.index_meta_image_summary,
            TranslationKeys::Navigation => self.navigation,
            TranslationKeys::Next => self.next,
            TranslationKeys::Message => self.message,
            TranslationKeys::Name => self.name,
            TranslationKeys::Painting => self.painting,
            TranslationKeys::Phone => self.phone,
            TranslationKeys::Photo => self.photo,
            TranslationKeys::Photography => self.photography,
            TranslationKeys::PhotoPricing => self.photo_pricing,
            TranslationKeys::PhotoReservation => self.photo_reservation,
            TranslationKeys::Prev => self.prev,
            TranslationKeys::Price => self.price,
            TranslationKeys::Send => self.send,
            TranslationKeys::Sold => self.sold,
            TranslationKeys::Subject => self.subject,
            TranslationKeys::Title => self.title,
            TranslationKeys::UpcomingEvents => self.upcoming_events,
            TranslationKeys::Width => self.width,
        }
    }

    /// The phrase for `key` in `lang`, looked up in this table.
    pub open spec fn spec_translation(&self, key: TranslationKeys, lang: Language) -> Seq<char> {
        match lang {
            Language::En => self.spec_entry(key).en@,
            Language::Cs => self.spec_entry(key).cs@,
        }
    }

    /// Looks the phrase up in this table.
    pub fn get_translation(&self, key: TranslationKeys, lang: Language) -> (r: &'static str)
        ensures
            r@ == self.spec_translation(key, lang),
    {
        let translation = match key {
            TranslationKeys::Ascending => &self.ascending,
            TranslationKeys::Back => &self.back,
            TranslationKeys::Blog => &self.blog,
            TranslationKeys::Buy => &self.buy,
            TranslationKeys::Created => &self.created,
            TranslationKeys::Contact => &self.contact,
            TranslationKeys::Close => &self.close,
            TranslationKeys::Descending => &self.descending,
            TranslationKeys::Email => &self.email,
            TranslationKeys::FAQ => &self.faq,
            TranslationKeys::Filter => &self.filter,
            TranslationKeys::FullName => &self.full_name,
            TranslationKeys::Gallery => &self.gallery,
            TranslationKeys::GalleryTitle => &self.gallery_title,
            TranslationKeys::General => &self.general,
            TranslationKeys::Height => &self.height,
            TranslationKeys::Home => &self.home,
            TranslationKeys::IndexTitle => &self.index_title,
            TranslationKeys::IndexHeroAlt => &self.index_hero_alt,
            TranslationKeys::IndexPicturAlt => &self.index_picture_alt,
            TranslationKeys::IndexDescription => &self.index_description,
            TranslationKeys::IndexMetaDescription => &self.index_meta_description,
            TranslationKeys::IndexMetaKeywords => &self.index_meta_keywords,
            TranslationKeys::IndexMetaImageSummary => &self.index_meta_image_summary,
            TranslationKeys::Navigation => &self.navigation,
            TranslationKeys::Next => &self.next,
            TranslationKeys::Message => &self.message,
            TranslationKeys::Name => &self.name,
            TranslationKeys::Painting => &self.painting,
            TranslationKeys::Phone => &self.phone,
            TranslationKeys::Photo => &self.photo,
            TranslationKeys::Photography => &self.photography,
            TranslationKeys::PhotoPricing => &self.photo_pricing,
            TranslationKeys::PhotoReservation => &self.photo_reservation,
            TranslationKeys::Prev => &self.prev,
            TranslationKeys::Price => &self.price,
            TranslationKeys::Send => &self.send,
            TranslationKeys::Sold => &self.sold,
            TranslationKeys::Subject => &self.subject,
            TranslationKeys::Title => &self.title,
            TranslationKeys::UpcomingEvents => &self.upcoming_events,
            TranslationKeys::Width => &self.width,
        };

        match lang {
            Language::En => translation.en,
            Language::Cs => translation.cs,
        }
    }
}

/// The phrase served for `key` in `lang`.
pub fn get_translation(key: TranslationKeys, lang: Language) -> (r: &'static str)
    ensures
        r@ == crate::client::localization::spec_default_translation(key, lang),
{
    let table = crate::client::localization::page_translations();
    table.get_translation(key, lang)
}

} // verus!
