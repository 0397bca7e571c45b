use vstd::prelude::*;

use crate::client::translations::{Language, PageTranslation, PageTranslations, TranslationKeys};

verus! {

/// The table of phrases the site is shipped with.
pub open spec fn spec_page_table() -> PageTranslations {
    PageTranslations {
ascending: PageTranslation {
        en: "ascending",
        cs: "vzestupně",
    },
    back: PageTranslation {
        en: "back",
        cs: "zpět",
    },
    blog: PageTranslation {
        en: "blog",
        cs: "blog",
    },
    buy: PageTranslation {
        en: "buy",
        cs: "koupit",
    },
    created: PageTranslation {
        en: "created",
        cs: "vytvořeno",
    },
    contact: PageTranslation {
        en: "contact",
        cs: "kontakt",
    },
    close: PageTranslation {
        en: "close",
        cs: "zavřít",
    },
    descending: PageTranslation {
        en: "descending",
        cs: "sestupně",
    },
    general: PageTranslation {
        en: "general",
        cs: "všeobecné",
    },
    email: PageTranslation {
        en: "email",
        cs: "email",
    },
    faq: PageTranslation {
        en: "FAQ",
        cs: "často kladené otázky",
    },
    filter: PageTranslation {
        en: "filter",
        cs: "filtrovar",
    },
    full_name: PageTranslation {
        en: "full name",
        cs: "celé jméno",
    },
    gallery: PageTranslation {
        en: "gallery",
        cs: "galerie",
    },
    gallery_title: PageTranslation {
        en: "Rosemary - gallery",
        cs: "Rosemary - galerie",
    },
    height: PageTranslation {
        en: "height",
        cs: "výška",
    },
    home: PageTranslation {
        en: "home",
        cs: "domů",
    },
    index_title: PageTranslation {
        en: "Rosemary - paintings, photo",
        cs: "Rosemary - obrazy, foto",
    },
    index_hero_alt: PageTranslation {
        en: "rosemary artist hero landing page banner",
        cs: "hlavní stránka webových stránek výtvarnice rosemary",
    },
    index_picture_alt: PageTranslation {
        en: "author home page profile picture",
        cs: "profilový obrázek autorky rosemary",
    },
    index_description: PageTranslation {
        en: "Through working_in a_bank, visiting monks in_the_Himalayas of_Nepal, experiencing multiple personal rises and falls to_finally finding a_comfort in_expressing my feelings and_emotions on_canvas or_through photography.\nPassing control of_my_hands to_whatever lies deep down within my_subconsciousness, letting it flow freely in_harmony with the tunes of_my_favorite music.\nIt_is_not a_portrait, it_is_not a_landscape either, though people may see various things in_it, but most importantly, it_is_me.",
        cs: "Prací v_bance, návštěvou mnichů v_klášterech ležících v_tibetských Himalájích, mnoha osobními vzestupy a_pády, tím_vším jsem_si_v_životě prošla, než jsem nalezla útěchu a_klid ve_vyjadřování svých emocí na_malířské plátno nebo_fotografický papír.\nRytmus mé_oblíbené hudby probouzí něco v_mém nitru a_vede můj štětec.\nPřestože v_mých obrazech můžete vidět mnoho věcí, nejsou to_portréty a_nejsou to_ani_krajiny, jsem_to_já.",
    },
    index_meta_description: PageTranslation {
        en: "Rosemary is abstract painter and photographer located in Prague, Czechia",
        cs: "Rosemary je abstraktní malířka a fotografka žijící v Praze, Česká Republicka",
    },
    index_meta_keywords: PageTranslation {
        en: "paitings, abstract, oil, photo, family, weddings, art, paint",
        cs: "obrazy, fotografie, foto, abstrakce, olej, umění, malování",
    },
    index_meta_image_summary: PageTranslation { en: "", cs: "" },
    navigation: PageTranslation {
        en: "navigation",
        cs: "navigace",
    },
    message: PageTranslation {
        en: "message",
        cs: "zpráva",
    },
    name: PageTranslation {
        en: "name",
        cs: "jméno",
    },
    next: PageTranslation {
        en: "next",
        cs: "další",
    },
    painting: PageTranslation {
        en: "painting",
        cs: "obraz",
    },
    phone: PageTranslation {
        en: "phone",
        cs: "telefon",
    },
    photo: PageTranslation {
        en: "photo",
        cs: "foto",
    },
    photography: PageTranslation {
        en: "photography",
        cs: "focení",
    },
    photo_pricing: PageTranslation {
        en: "photo pricing",
        cs: "ceník focení",
    },
    photo_reservation: PageTranslation {
        en: "reserve photoshooting",
        cs: "rezervovat focení",
    },
    price: PageTranslation {
        en: "price",
        cs: "cena",
    },
    prev: PageTranslation {
        en: "previous",
        cs: "předchozí",
    },
    send: PageTranslation {
        en: "send",
        cs: "odeslat",
    },
    sold: PageTranslation {
        en: "sold",
        cs: "prodáno",
    },
    subject: PageTranslation {
        en: "subject",
        cs: "předmět",
    },
    title: PageTranslation {
        en: "title",
        cs: "název",
    },
    upcoming_events: PageTranslation {
        en: "upcoming events",
        cs: "nadcházející události",
    },
    width: PageTranslation {
        en: "width",
        cs: "šířka",
    },
    }
}

/// The phrase the shipped table holds for `key` in `lang`.
pub open spec fn spec_default_translation(key: TranslationKeys, lang: Language) -> Seq<char> {
    spec_page_table().spec_translation(key, lang)
}

/// The shipped translation table as a value.
pub fn page_translations() -> (t: PageTranslations)
    ensures
        t == spec_page_table(),
{
    PageTranslations {
ascending: PageTranslation {
        en: "ascending",
        cs: "vzestupně",
    },
    back: PageTranslation {
        en: "back",
        cs: "zpět",
    },
    blog: PageTranslation {
        en: "blog",
        cs: "blog",
    },
    buy: PageTranslation {
        en: "buy",
        cs: "koupit",
    },
    created: PageTranslation {
        en: "created",
        cs: "vytvořeno",
    },
    contact: PageTranslation {
        en: "contact",
        cs: "kontakt",
    },
    close: PageTranslation {
        en: "close",
        cs: "zavřít",
    },
    descending: PageTranslation {
        en: "descending",
        cs: "sestupně",
    },
    general: PageTranslation {
        en: "general",
        cs: "všeobecné",
    },
    email: PageTranslation {
        en: "email",
        cs: "email",
    },
    faq: PageTranslation {
        en: "FAQ",
        cs: "často kladené otázky",
    },
    filter: PageTranslation {
        en: "filter",
        cs: "filtrovar",
    },
    full_name: PageTranslation {
        en: "full name",
        cs: "celé jméno",
    },
    gallery: PageTranslation {
        en: "gallery",
        cs: "galerie",
    },
    gallery_title: PageTranslation {
        en: "Rosemary - gallery",
        cs: "Rosemary - galerie",
    },
    height: PageTranslation {
        en: "height",
        cs: "výška",
    },
    home: PageTranslation {
        en: "home",
        cs: "domů",
    },
    index_title: PageTranslation {
        en: "Rosemary - paintings, photo",
        cs: "Rosemary - obrazy, foto",
    },
    index_hero_alt: PageTranslation {
        en: "rosemary artist hero landing page banner",
        cs: "hlavní stránka webových stránek výtvarnice rosemary",
    },
    index_picture_alt: PageTranslation {
        en: "author home page profile picture",
        cs: "profilový obrázek autorky rosemary",
    },
    index_description: PageTranslation {
        en: "Through working_in a_bank, visiting monks in_the_Himalayas of_Nepal, experiencing multiple personal rises and falls to_finally finding a_comfort in_expressing my feelings and_emotions on_canvas or_through photography.\nPassing control of_my_hands to_whatever lies deep down within my_subconsciousness, letting it flow freely in_harmony with the tunes of_my_favorite music.\nIt_is_not a_portrait, it_is_not a_landscape either, though people may see various things in_it, but most importantly, it_is_me.",
        cs: "Prací v_bance, návštěvou mnichů v_klášterech ležících v_tibetských Himalájích, mnoha osobními vzestupy a_pády, tím_vším jsem_si_v_životě prošla, než jsem nalezla útěchu a_klid ve_vyjadřování svých emocí na_malířské plátno nebo_fotografický papír.\nRytmus mé_oblíbené hudby probouzí něco v_mém nitru a_vede můj štětec.\nPřestože v_mých obrazech můžete vidět mnoho věcí, nejsou to_portréty a_nejsou to_ani_krajiny, jsem_to_já.",
    },
    index_meta_description: PageTranslation {
        en: "Rosemary is abstract painter and photographer located in Prague, Czechia",
        cs: "Rosemary je abstraktní malířka a fotografka žijící v Praze, Česká Republicka",
    },
    index_meta_keywords: PageTranslation {
        en: "paitings, abstract, oil, photo, family, weddings, art, paint",
        cs: "obrazy, fotografie, foto, abstrakce, olej, umění, malování",
    },
    index_meta_image_summary: PageTranslation { en: "", cs: "" },
    navigation: PageTranslation {
        en: "navigation",
        cs: "navigace",
    },
    message: PageTranslation {
        en: "message",
        cs: "zpráva",
    },
    name: PageTranslation {
        en: "name",
        cs: "jméno",
    },
    next: PageTranslation {
        en: "next",
        cs: "další",
    },
    painting: PageTranslation {
        en: "painting",
        cs: "obraz",
    },
    phone: PageTranslation {
        en: "phone",
        cs: "telefon",
    },
    photo: PageTranslation {
        en: "photo",
        cs: "foto",
    },
    photography: PageTranslation {
        en: "photography",
        cs: "focení",
    },
    photo_pricing: PageTranslation {
        en: "photo pricing",
        cs: "ceník focení",
    },
    photo_reservation: PageTranslation {
        en: "reserve photoshooting",
        cs: "rezervovat focení",
    },
    price: PageTranslation {
        en: "price",
        cs: "cena",
    },
    prev: PageTranslation {
        en: "previous",
        cs: "předchozí",
    },
    send: PageTranslation {
        en: "send",
        cs: "odeslat",
    },
    sold: PageTranslation {
        en: "sold",
        cs: "prodáno",
    },
    subject: PageTranslation {
        en: "subject",
        cs: "předmět",
    },
    title: PageTranslation {
        en: "title",
        cs: "název",
    },
    upcoming_events: PageTranslation {
        en: "upcoming events",
        cs: "nadcházející události",
    },
    width: PageTranslation {
        en: "width",
        cs: "šířka",
    },
    }
}

} // verus!
