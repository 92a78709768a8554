//! Kinds of links in a document, told apart by their URI.
use vstd::prelude::*;
use crate::numbers::{all_digits, parse_u32, parse_u32_spec, parse_usize, parse_usize_spec};
use crate::text::{starts_with, starts_with_literal, to_chars};

verus! {

/// What a link points at.
#[derive(Debug, Clone, Copy, PartialEq, Eq, Structural)]
pub enum LinkType {
    ExternalUrl,
    InternalPage(u32),
    Email,
    Other,
}

/// The kind of the link with URI `uri` whose destination page is `page`: web addresses,
/// mail addresses, links into the document (`#page=`, `#nameddest=` or a bare page number)
/// and anything else.
pub open spec fn link_kind(uri: Seq<char>, page: u32) -> LinkType {
    if starts_with(uri, "http://"@) || starts_with(uri, "https://"@) {
        LinkType::ExternalUrl
    } else if starts_with(uri, "mailto:"@) {
        LinkType::Email
    } else if starts_with(uri, "#page="@) || starts_with(uri, "#nameddest="@) {
        LinkType::InternalPage(page)
    } else if all_digits(uri) {
        match parse_u32_spec(uri) {
            Some(n) => LinkType::InternalPage(n),
            None => LinkType::Other,
        }
    } else {
        LinkType::Other
    }
}

fn all_ascii_digits(s: &[char]) -> (r: bool)
    ensures
        r == all_digits(s@),
{
    let mut i: usize = 0;
    while i < s.len()
        invariant
            i <= s@.len(),
            forall|j: int| 0 <= j < i ==> crate::numbers::is_digit(#[trigger] s@[j]),
        decreases s@.len() - i,
    {
        if !('0' <= s[i] && s[i] <= '9') {
            return false;
        }
        i = i + 1;
    }
    true
}

/// The kind of the link with URI `uri` and destination page `page` (`link_kind`).
pub fn categorize_link(uri: &str, page: u32) -> (r: LinkType)
    ensures
        r == link_kind(uri@, page),
{
    let u = to_chars(uri);
    let s = u.as_slice();
    if starts_with_literal(s, "http://") || starts_with_literal(s, "https://") {
        LinkType::ExternalUrl
    } else if starts_with_literal(s, "mailto:") {
        LinkType::Email
    } else if starts_with_literal(s, "#page=") || starts_with_literal(s, "#nameddest=") {
        LinkType::InternalPage(page)
    } else if all_ascii_digits(s) {
        match parse_u32(s) {
            Some(n) => LinkType::InternalPage(n),
            None => LinkType::Other,
        }
    } else {
        LinkType::Other
    }
}

/// Whether a link leaves the document: a web or mail address.
pub open spec fn is_external(uri: Seq<char>) -> bool {
    starts_with(uri, "http://"@) || starts_with(uri, "https://"@) || starts_with(uri, "mailto:"@)
}

/// Whether the link with URI `uri` leaves the document (`is_external`).
pub fn is_external_uri(uri: &str) -> (r: bool)
    ensures
        r == is_external(uri@),
{
    let u = to_chars(uri);
    starts_with_literal(u.as_slice(), "http://") || starts_with_literal(u.as_slice(), "https://")
        || starts_with_literal(u.as_slice(), "mailto:")
}

/// Whether following the link with URI `uri` is a jump within the document worth recording
/// in the jumplist: a `#page=` link.
pub fn is_page_link(uri: &str) -> (r: bool)
    ensures
        r == starts_with(uri@, "#page="@),
{
    let u = to_chars(uri);
    starts_with_literal(u.as_slice(), "#page=")
}

/// Where following a link leads.
#[derive(Debug, Clone, Copy, PartialEq, Eq, Structural)]
pub enum LinkTarget {
    /// Open the URI with the system's handler.
    External,
    /// Show this page (counted from 0) of the document.
    Page(usize),
    /// Nowhere.
    Nowhere,
}

/// Where the link with URI `uri` (and destination page `dest_page`, if it has one) leads in
/// a document of `page_count` pages: web and mail addresses leave the document; a
/// destination page is shown if the document has it; `#page=<n>` and a bare `<n>` show page
/// `n`, counted from 1.
pub open spec fn link_target(uri: Seq<char>, dest_page: Option<usize>, page_count: usize) -> LinkTarget {
    if is_external(uri) {
        LinkTarget::External
    } else if dest_page is Some {
        if dest_page->0 < page_count {
            LinkTarget::Page(dest_page->0)
        } else {
            LinkTarget::Nowhere
        }
    } else if starts_with(uri, "#page="@) && parse_usize_spec(uri.skip(6)) is Some {
        let n = parse_usize_spec(uri.skip(6))->0;
        if n > 0 {
            LinkTarget::Page((n - 1) as usize)
        } else {
            LinkTarget::Nowhere
        }
    } else if all_digits(uri) && parse_usize_spec(uri) is Some && parse_usize_spec(uri)->0 > 0 {
        LinkTarget::Page((parse_usize_spec(uri)->0 - 1) as usize)
    } else {
        LinkTarget::Nowhere
    }
}

/// Where following the link with URI `uri` and destination page `dest_page` leads
/// (`link_target`).
pub fn link_activation(uri: &str, dest_page: Option<usize>, page_count: usize) -> (r: LinkTarget)
    ensures
        r == link_target(uri@, dest_page, page_count),
{
    let u = to_chars(uri);
    let s = u.as_slice();
    if is_external_uri(uri) {
        return LinkTarget::External;
    }
    if let Some(page) = dest_page {
        return if page < page_count { LinkTarget::Page(page) } else { LinkTarget::Nowhere };
    }
    if starts_with_literal(s, "#page=") {
        proof {
            reveal_strlit("#page=");
        }
        let rest = vstd::slice::slice_subrange(s, 6, s.len());
        assert(rest@ =~= uri@.skip(6));
        if let Some(n) = parse_usize(rest) {
            return if n > 0 { LinkTarget::Page(n - 1) } else { LinkTarget::Nowhere };
        }
    }
    if all_ascii_digits(s) {
        if let Some(n) = parse_usize(s) {
            if n > 0 {
                return LinkTarget::Page(n - 1);
            }
        }
    }
    LinkTarget::Nowhere
}

} // verus!
