//! HTTP header values and the two header names of protocol significance.

use vstd::prelude::*;
use vstd::string::StringExecFns;

verus! {

/// One HTTP header: a lowercase name and its value.
#[derive(Debug, PartialEq, Eq)]
pub struct Header {
    pub name: String,
    pub value: String,
}

/// The mathematical image of a header.
pub struct HeaderView {
    pub name: Seq<char>,
    pub value: Seq<char>,
}

impl View for Header {
    type V = HeaderView;

    open spec fn view(&self) -> HeaderView {
        HeaderView { name: self.name@, value: self.value@ }
    }
}

/// The image of a header list.
pub open spec fn headers_view(hs: Seq<Header>) -> Seq<HeaderView> {
    hs.map_values(|h: Header| h@)
}

/// The image of a list of header names.
pub open spec fn names_view(ns: Seq<String>) -> Seq<Seq<char>> {
    ns.map_values(|n: String| n@)
}

/// The value of the last header named `name`, if any. The proxy's header
/// map is last-write-wins, so the later entry shadows earlier ones.
pub open spec fn lookup(hs: Seq<HeaderView>, name: Seq<char>) -> Option<Seq<char>>
    decreases hs.len(),
{
    if hs.len() == 0 {
        None
    } else if hs.last().name == name {
        Some(hs.last().value)
    } else {
        lookup(hs.drop_last(), name)
    }
}

/// Find the value of the last header named `name`.
pub fn header_value(headers: &Vec<Header>, name: &str) -> (r: Option<String>)
    ensures
        r is Some <==> lookup(headers_view(headers@), name@) is Some,
        r is Some ==> Some((r->0)@) == lookup(headers_view(headers@), name@),
{
    let ghost hv = headers_view(headers@);
    let name_owned = name.to_owned();
    let mut i: usize = headers.len();
    proof {
        assert(hv.take(i as int) =~= hv);
    }
    while i > 0
        invariant
            i <= headers.len(),
            hv == headers_view(headers@),
            name_owned@ == name@,
            lookup(hv, name@) == lookup(hv.take(i as int), name@),
        decreases i,
    {
        i -= 1;
        proof {
            assert(hv.take(i + 1).last() == hv[i as int]);
            assert(hv.take(i + 1).drop_last() =~= hv.take(i as int));
            assert(hv[i as int] == headers@[i as int]@);
        }
        if headers[i].name == name_owned {
            return Some(headers[i].value.clone());
        }
    }
    proof {
        assert(hv.take(0) =~= Seq::<HeaderView>::empty());
    }
    None
}

/// The dedicated header that carries the mesh identity token.
pub open spec fn identity_header() -> Seq<char> {
    "x-wirepact-identity"@
}

/// The header that carries the application-native credential understood by
/// the basic-auth translator.
pub open spec fn authorization_header() -> Seq<char> {
    "authorization"@
}

pub fn identity_header_name() -> (r: String)
    ensures
        r@ == identity_header(),
{
    String::from_str("x-wirepact-identity")
}

pub fn authorization_header_name() -> (r: String)
    ensures
        r@ == authorization_header(),
{
    String::from_str("authorization")
}

} // verus!
