use vstd::prelude::*;

use crate::client::component_props::{FooterProps, MetaProps, NavbarProps};

verus! {

/// The contact page's own captions.
pub struct ContactPageData<'a> {
    pub title: &'a str,
    pub name: &'a str,
    pub email: &'a str,
    pub phone: &'a str,
    pub subject: &'a str,
    pub painting: &'a str,
    pub photography: &'a str,
    pub general: &'a str,
    pub message: &'a str,
    pub send: &'a str,
}

/// Everything the contact page template is rendered from.
pub struct ContactPage<'a> {
    pub meta: MetaProps<'a>,
    pub page: ContactPageData<'a>,
    pub navbar: NavbarProps<'a>,
    pub footer: FooterProps<'a>,
}

} // verus!
