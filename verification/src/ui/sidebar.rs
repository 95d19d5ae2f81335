//! The sidebar: the library filters it offers and how each store account is
//! shown.
use vstd::prelude::*;

use crate::game::{store_label, Store};
use crate::text::{chars_of, push_str, string_of};

verus! {

/// The filter buttons: the label shown and the store label it filters by
/// (`None`: all games).
pub open spec fn filter_buttons_spec() -> Seq<(Seq<char>, Option<Seq<char>>)> {
    seq![
        ("🎮  All Games"@, None),
        ("🔵  Epic Games"@, Some("Epic"@)),
        ("🟣  GOG"@, Some("GOG"@)),
        ("🔷  Steam"@, Some("Steam"@)),
        ("🔴  Itch.io"@, Some("Itch.io"@)),
        ("📁  Local"@, Some("Local"@)),
    ]
}

pub open spec fn filter_views(v: Seq<(&'static str, Option<&'static str>)>) -> Seq<(Seq<char>, Option<Seq<char>>)> {
    v.map_values(|b: (&'static str, Option<&'static str>)| (b.0@, match b.1 { Some(s) => Some(s@), None => None }))
}

/// The sidebar's filter buttons.
pub fn filter_buttons() -> (r: Vec<(&'static str, Option<&'static str>)>)
    ensures
        filter_views(r@) == filter_buttons_spec(),
{
    let r = vec![
        ("🎮  All Games", None),
        ("🔵  Epic Games", Some("Epic")),
        ("🟣  GOG", Some("GOG")),
        ("🔷  Steam", Some("Steam")),
        ("🔴  Itch.io", Some("Itch.io")),
        ("📁  Local", Some("Local")),
    ];
    assert(filter_views(r@) =~= filter_buttons_spec());
    r
}

/// The label of a store's account button: `✓ Store` when logged in,
/// `Log in to Store` otherwise.
pub open spec fn account_text(store: Seq<char>, authenticated: bool) -> Seq<char> {
    if authenticated { "✓ "@ + store } else { "Log in to "@ + store }
}

/// The label of a store's account button.
pub fn account_label(store: &str, authenticated: bool) -> (r: String)
    ensures
        r@ == account_text(store@, authenticated),
{
    let mut v = if authenticated { chars_of("✓ ") } else { chars_of("Log in to ") };
    push_str(&mut v, store);
    string_of(v.as_slice())
}

/// Each store filter of the sidebar names a store: it shows that store's
/// games.
pub proof fn law_filters_name_stores()
    ensures
        forall|i: int| 0 <= i < filter_buttons_spec().len() && (#[trigger] filter_buttons_spec()[i]).1 is Some
            ==> exists|s: Store| store_label(s) == filter_buttons_spec()[i].1->0,
{
    assert(store_label(Store::Epic) == "Epic"@);
    assert(store_label(Store::Gog) == "GOG"@);
    assert(store_label(Store::Steam) == "Steam"@);
    assert(store_label(Store::Itch) == "Itch.io"@);
    assert(store_label(Store::Local) == "Local"@);
}

} // verus!
