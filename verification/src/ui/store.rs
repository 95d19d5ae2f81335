//! The Store tab: the shops it offers and how each is opened.
use vstd::prelude::*;

use crate::command::{command_text, plain_command, CommandSpec};
use crate::stores::arg;
use crate::text::{chars_of, push_str, string_of, string_views};

verus! {

/// A shop on the Store tab.
#[derive(Debug, Clone, Copy)]
pub struct StoreEntry {
    pub name: &'static str,
    pub emoji: &'static str,
    pub description: &'static str,
    pub url: &'static str,
    /// The style class of its card.
    pub css: &'static str,
}

/// The shop names and addresses on the Store tab, in order.
pub open spec fn store_sites() -> Seq<(Seq<char>, Seq<char>)> {
    seq![
        ("Steam"@, "https://store.steampowered.com"@),
        ("Epic Games"@, "https://store.epicgames.com"@),
        ("GOG"@, "https://www.gog.com"@),
        ("Itch.io"@, "https://itch.io"@),
    ]
}

/// The shops on the Store tab, in order.
pub fn stores() -> (r: Vec<StoreEntry>)
    ensures
        r@.map_values(|e: StoreEntry| (e.name@, e.url@)) == store_sites(),
{
    let r = vec![
        StoreEntry {
            name: "Steam",
            emoji: "🎮",
            description: "The largest PC gaming platform. Browse thousands of games, sales, and your wishlist.",
            url: "https://store.steampowered.com",
            css: "store-btn-steam",
        },
        StoreEntry {
            name: "Epic Games",
            emoji: "⚡",
            description: "Free games every week, exclusives, and the Unreal Engine ecosystem.",
            url: "https://store.epicgames.com",
            css: "store-btn-epic",
        },
        StoreEntry {
            name: "GOG",
            emoji: "🔓",
            description: "DRM-free games. Buy once, own forever. Great classic game library.",
            url: "https://www.gog.com",
            css: "store-btn-gog",
        },
        StoreEntry {
            name: "Itch.io",
            emoji: "🎲",
            description: "Indie games, game jams, and pay-what-you-want titles from independent developers.",
            url: "https://itch.io",
            css: "store-btn-itch",
        },
    ];
    assert(r@.map_values(|e: StoreEntry| (e.name@, e.url@)) =~= store_sites());
    r
}

/// The label of a shop's button.
pub fn open_label(name: &str) -> (r: String)
    ensures
        r@ == "Open "@ + name@,
{
    let mut v = chars_of("Open ");
    push_str(&mut v, name);
    string_of(v.as_slice())
}

/// The command that opens a shop's page in the browser.
pub fn open_store_command(url: &str) -> (r: CommandSpec)
    ensures
        command_text(r) == plain_command("xdg-open"@, seq![url@]),
{
    let args = vec![arg(url)];
    assert(string_views(args@) =~= seq![url@]);
    CommandSpec::new(arg("xdg-open"), args)
}

} // verus!
