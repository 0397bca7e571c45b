use vstd::prelude::*;

use crate::client::component_props::{FooterProps, MetaProps, NavbarProps};

verus! {

/// The landing page's own captions and artwork references.
pub struct IndexPageData<'a> {
    pub title: &'a str,
    pub hero_banner: &'a str,
    pub hero_banner_alt: &'a str,
    pub author_picture: &'a str,
    pub author_picture_alt: &'a str,
    pub author_description: &'a str,
}

/// Everything the landing page template is rendered from.
pub struct IndexPage<'a> {
    pub meta: MetaProps<'a>,
    pub page: IndexPageData<'a>,
    pub navbar: NavbarProps<'a>,
    pub footer: FooterProps<'a>,
}

/// The author description with each `_` widened to a non-breaking space
/// entity, character for character.
pub open spec fn spec_nbsp_expand(s: Seq<char>) -> Seq<char>
    decreases s.len(),
{
    if s.len() == 0 {
        s
    } else {
        spec_nbsp_expand(s.drop_last()) + (if s.last() == '_' {
            "&nbsp;"@
        } else {
            seq![s.last()]
        })
    }
}

/// Replaces each underscore with the `&nbsp;` entity, as the landing
/// page's description wants it.
pub fn nbsp_expand(s: &str) -> (r: String)
    ensures
        r@ == spec_nbsp_expand(s@),
{
    let len = s.unicode_len();
    let mut out = String::new();
    let mut i: usize = 0;
    while i < len
        invariant
            i <= len,
            len == s@.len(),
            out@ == spec_nbsp_expand(s@.subrange(0, i as int)),
        decreases len - i,
    {
        proof {
            assert(s@.subrange(0, i + 1).drop_last() =~= s@.subrange(0, i as int));
            assert(s@.subrange(0, i + 1).last() == s@[i as int]);
        }
        let c = s.get_char(i);
        if c == '_' {
            out.append("&nbsp;");
        } else {
            let piece = s.substring_char(i, i + 1);
            out.append(piece);
            proof {
                assert(piece@ =~= seq![s@[i as int]]);
            }
        }
        proof {
            assert(out@ =~= spec_nbsp_expand(s@.subrange(0, i + 1)));
        }
        i = i + 1;
    }
    proof {
        assert(s@.subrange(0, len as int) =~= s@);
    }
    out
}

} // verus!
