//! Where the local library and its cover art live, and how a cover is found
//! on Steam's store by title.
use vstd::prelude::*;

use crate::config::{novadream_dir_in, novadream_dir_spec, sanitise_title, sanitised};
use crate::paths::{data_local_dir, join, joined, opt_view};
use crate::stores::steam::steam_cover;
use crate::text::{
    chars_of, copy_range, find_char, find_index, find_str, hex2, hex_char, hex_digits, index_of, lemma_find_index,
    lemma_index_of, push_chars, push_hex2, push_str, string_of,
};

verus! {

/// The file that holds the manually added games, under the local data
/// directory `base`.
pub open spec fn library_file_spec(base: Option<Seq<char>>) -> Seq<char> {
    joined(novadream_dir_spec(base), "local_games.json"@)
}

/// The directory of downloaded covers, under the local data directory `base`.
pub open spec fn covers_dir_spec(base: Option<Seq<char>>) -> Seq<char> {
    joined(novadream_dir_spec(base), "covers"@)
}

/// The cover file for the key `key` (`<covers>/<key>.jpg`).
pub open spec fn cover_file_spec(base: Option<Seq<char>>, key: Seq<char>) -> Seq<char> {
    joined(covers_dir_spec(base), key + ".jpg"@)
}

/// The key a game's cover is stored under: its sanitised title, or its id
/// when nothing of the title is left.
pub open spec fn cover_key_spec(title: Seq<char>, id: Seq<char>) -> Seq<char> {
    if sanitised(title).len() == 0 { id } else { sanitised(title) }
}

/// What `url` percent-encoding makes of one character: letters, digits and
/// `-_.~` stay, a space becomes `+`, anything else becomes `%` and its code
/// point in upper-case hexadecimal (two digits at least).
pub open spec fn url_piece(c: char) -> Seq<char> {
    if ('A' <= c <= 'Z') || ('a' <= c <= 'z') || ('0' <= c <= '9') || c == '-' || c == '_' || c == '.' || c == '~' {
        seq![c]
    } else if c == ' ' {
        seq!['+']
    } else {
        seq!['%'] + hex2(c as nat)
    }
}

/// `s` percent-encoded character by character.
pub open spec fn url_encoded(s: Seq<char>) -> Seq<char>
    decreases s.len(),
{
    if s.len() == 0 {
        Seq::empty()
    } else {
        url_encoded(s.drop_last()) + url_piece(s.last())
    }
}

/// Steam's search-suggest address for a title.
pub open spec fn steam_search_spec(title: Seq<char>) -> Seq<char> {
    "https://store.steampowered.com/search/suggest?term="@ + url_encoded(title) + "&f=games&cc=US&l=en"@
}

/// The app id in a Steam search-suggest page: the text after the first
/// `data-ds-appid="` up to the next `"`; none when that is missing or empty.
pub open spec fn steam_appid_spec(html: Seq<char>) -> Option<Seq<char>> {
    let marker = "data-ds-appid=\""@;
    let i = find_index(html, marker);
    if i < 0 {
        None
    } else {
        let rest = html.skip(i + marker.len());
        let j = index_of(rest, '"');
        if j <= 0 { None } else { Some(rest.take(j)) }
    }
}

/// The file that holds the manually added games, given the local data
/// directory.
pub fn library_path_in(base: &Option<String>) -> (r: String)
    ensures
        r@ == library_file_spec(opt_view(*base)),
{
    let d = novadream_dir_in(base);
    join(d.as_str(), "local_games.json")
}

/// The file that holds the manually added games.
pub fn library_path() -> (r: String)
    ensures
        exists|b: Option<Seq<char>>| r@ == library_file_spec(b),
{
    let base = data_local_dir();
    let r = library_path_in(&base);
    assert(r@ == library_file_spec(opt_view(base)));
    r
}

/// The directory of downloaded covers, given the local data directory.
pub fn covers_dir_in(base: &Option<String>) -> (r: String)
    ensures
        r@ == covers_dir_spec(opt_view(*base)),
{
    let d = novadream_dir_in(base);
    join(d.as_str(), "covers")
}

/// The directory of downloaded covers.
pub fn covers_dir() -> (r: String)
    ensures
        exists|b: Option<Seq<char>>| r@ == covers_dir_spec(b),
{
    let base = data_local_dir();
    let r = covers_dir_in(&base);
    assert(r@ == covers_dir_spec(opt_view(base)));
    r
}

/// The cover file for a key, given the local data directory.
pub fn cover_path_in(base: &Option<String>, title_key: &str) -> (r: String)
    ensures
        r@ == cover_file_spec(opt_view(*base), title_key@),
{
    let d = covers_dir_in(base);
    let mut name = chars_of(title_key);
    push_str(&mut name, ".jpg");
    let n = string_of(name.as_slice());
    join(d.as_str(), n.as_str())
}

/// The expected cover file for a sanitised title key.
pub fn cover_path_for_title(title_key: &str) -> (r: String)
    ensures
        exists|b: Option<Seq<char>>| r@ == cover_file_spec(b, title_key@),
{
    let base = data_local_dir();
    let r = cover_path_in(&base, title_key);
    assert(r@ == cover_file_spec(opt_view(base), title_key@));
    r
}

/// The key a game's cover is stored under, so that adding the same title
/// again finds the cover already there.
pub fn cover_key(title: &str, id: &str) -> (r: String)
    ensures
        r@ == cover_key_spec(title@, id@),
{
    let safe = sanitise_title(title);
    if safe.as_str().is_empty() {
        String::from_str(id)
    } else {
        safe
    }
}

fn push_url_piece(out: &mut Vec<char>, c: char)
    ensures
        final(out)@ == old(out)@ + url_piece(c),
{
    if ('A' <= c && c <= 'Z') || ('a' <= c && c <= 'z') || ('0' <= c && c <= '9') || c == '-'
        || c == '_' || c == '.' || c == '~' {
        out.push(c);
        assert(final(out)@ =~= old(out)@ + url_piece(c));
    } else if c == ' ' {
        out.push('+');
        assert(final(out)@ =~= old(out)@ + url_piece(c));
    } else {
        out.push('%');
        push_hex2(out, c as u32);
        assert(final(out)@ =~= old(out)@ + url_piece(c));
    }
}

/// Percent-encodes a search term.
pub fn urlencoding(s: &str) -> (r: String)
    ensures
        r@ == url_encoded(s@),
{
    let v = chars_of(s);
    let n = v.len();
    let mut out: Vec<char> = Vec::new();
    let mut i: usize = 0;
    assert(v@.take(0) =~= Seq::<char>::empty());
    while i < n
        invariant
            i <= n,
            n == v@.len(),
            out@ == url_encoded(v@.take(i as int)),
        decreases n - i,
    {
        assert(v@.take(i + 1).drop_last() =~= v@.take(i as int));
        push_url_piece(&mut out, v[i]);
        i = i + 1;
    }
    assert(v@.take(n as int) =~= v@);
    string_of(out.as_slice())
}

/// The Steam search-suggest address for a title.
pub fn steam_search_url(title: &str) -> (r: String)
    ensures
        r@ == steam_search_spec(title@),
{
    let mut v = chars_of("https://store.steampowered.com/search/suggest?term=");
    let q = urlencoding(title);
    push_chars(&mut v, chars_of(q.as_str()).as_slice());
    push_str(&mut v, "&f=games&cc=US&l=en");
    string_of(v.as_slice())
}

/// The app id in a Steam search-suggest page.
pub fn extract_steam_appid(html: &str) -> (r: Option<String>)
    ensures
        opt_view(r) == steam_appid_spec(html@),
{
    let v = chars_of(html);
    let marker = chars_of("data-ds-appid=\"");
    let n = v.len();
    match find_str(v.as_slice(), marker.as_slice()) {
        None => None,
        Some(i) => {
            proof {
                lemma_find_index(v@, marker@);
            }
            let start = i + marker.len();
            match find_char(v.as_slice(), start, '"') {
                None => None,
                Some(e) => {
                    if e == start {
                        return None;
                    }
                    let id = copy_range(v.as_slice(), start, e);
                    assert(id@ =~= v@.skip(start as int).take(e - start));
                    Some(string_of(id.as_slice()))
                },
            }
        },
    }
}

/// The cover address for the first game a Steam search-suggest page lists.
pub fn cover_url_from_search(html: &str) -> (r: Option<String>)
    ensures
        match steam_appid_spec(html@) {
            Some(id) => r matches Some(u) && u@ == steam_cover(id),
            None => r is None,
        },
{
    match extract_steam_appid(html) {
        None => None,
        Some(id) => {
            let mut v = chars_of("https://cdn.cloudflare.steamstatic.com/steam/apps/");
            push_chars(&mut v, chars_of(id.as_str()).as_slice());
            push_str(&mut v, "/library_600x900.jpg");
            Some(string_of(v.as_slice()))
        },
    }
}

/// Whether a download is big enough to be an image: smaller answers (under
/// 1024 bytes) are taken for error pages.
pub fn image_big_enough(len: usize) -> (r: bool)
    ensures
        r == (len >= 1024),
{
    len >= 1024
}


/// Whether a local game still needs a cover at start-up: none is stored
/// under its title, and its own cover path is unset or names no file
/// (`cover_exists` says whether it does, when it is set).
pub fn cover_missing(title_cover_exists: bool, cover_exists: Option<bool>) -> (r: bool)
    ensures
        r == (!title_cover_exists && match cover_exists {
            Some(e) => !e,
            None => true,
        }),
{
    if title_cover_exists {
        return false;
    }
    match cover_exists {
        Some(e) => !e,
        None => true,
    }
}

/// A cover is keyed by the game's title: two games whose titles sanitise
/// alike (and to something) share one cover file, whatever their ids.
pub proof fn law_cover_keyed_by_title(base: Option<Seq<char>>, t1: Seq<char>, id1: Seq<char>, t2: Seq<char>, id2: Seq<char>)
    requires
        sanitised(t1).len() > 0,
        sanitised(t1) == sanitised(t2),
    ensures
        cover_file_spec(base, cover_key_spec(t1, id1)) == cover_file_spec(base, cover_key_spec(t2, id2)),
{
}
/// Text made of ASCII characters only.
pub open spec fn is_ascii_text(s: Seq<char>) -> bool {
    forall|i: int| 0 <= i < s.len() ==> (s[i] as nat) < 128
}

/// The characters `url_encoded` writes: letters, digits, `-_.~`, `+` and `%`.
pub open spec fn url_safe_char(c: char) -> bool {
    ('A' <= c <= 'Z') || ('a' <= c <= 'z') || ('0' <= c <= '9') || c == '-' || c == '_' || c == '.' || c == '~'
        || c == '+' || c == '%'
}

/// The value of a hexadecimal digit (zero for any other character).
pub open spec fn hex_value(c: char) -> nat {
    if '0' <= c <= '9' {
        (c as nat - '0' as nat) as nat
    } else if 'A' <= c <= 'F' {
        (c as nat - 'A' as nat + 10) as nat
    } else if 'a' <= c <= 'f' {
        (c as nat - 'a' as nat + 10) as nat
    } else {
        0
    }
}

/// Form decoding (`application/x-www-form-urlencoded`) as far as ASCII goes:
/// `+` is a space, `%` and two hexadecimal digits of a value below 128 is the
/// character of that value, and every other character stands for itself.
pub open spec fn form_decoded(s: Seq<char>) -> Seq<char>
    decreases s.len(),
{
    if s.len() == 0 {
        Seq::empty()
    } else if s[0] == '+' {
        seq![' '] + form_decoded(s.skip(1))
    } else if s[0] == '%' && s.len() >= 3 && hex_value(s[1]) * 16 + hex_value(s[2]) < 128 {
        seq![((hex_value(s[1]) * 16 + hex_value(s[2])) as char)] + form_decoded(s.skip(3))
    } else {
        seq![s[0]] + form_decoded(s.skip(1))
    }
}

proof fn lemma_url_encoded_concat(a: Seq<char>, b: Seq<char>)
    ensures
        url_encoded(a + b) == url_encoded(a) + url_encoded(b),
    decreases b.len(),
{
    if b.len() == 0 {
        assert(a + b =~= a);
        assert(url_encoded(a) + url_encoded(b) =~= url_encoded(a));
    } else {
        lemma_url_encoded_concat(a, b.drop_last());
        assert((a + b).drop_last() =~= a + b.drop_last());
        assert((a + b).last() == b.last());
        assert(url_encoded(a + b) =~= url_encoded(a) + url_encoded(b));
    }
}

proof fn lemma_url_encoded_front(s: Seq<char>)
    requires
        s.len() > 0,
    ensures
        url_encoded(s) == url_piece(s[0]) + url_encoded(s.skip(1)),
{
    let a = seq![s[0]];
    lemma_url_encoded_concat(a, s.skip(1));
    assert(a + s.skip(1) =~= s);
    assert(a.drop_last() =~= Seq::<char>::empty());
    assert(url_encoded(a.drop_last()) =~= Seq::<char>::empty());
    assert(a.last() == s[0]);
    assert(url_encoded(a) =~= url_piece(s[0]));
}

proof fn lemma_hex_char(d: nat)
    requires
        d < 16,
    ensures
        hex_value(hex_char(d)) == d,
        url_safe_char(hex_char(d)),
        hex_char(d) != '+' && hex_char(d) != '%',
{
}

proof fn lemma_hex2_ascii(n: nat)
    requires
        n < 128,
    ensures
        hex2(n).len() == 2,
        hex_value(hex2(n)[0]) * 16 + hex_value(hex2(n)[1]) == n,
        url_safe_char(hex2(n)[0]) && url_safe_char(hex2(n)[1]),
{
    lemma_hex_char(n % 16);
    lemma_hex_char(n / 16);
    if n >= 16 {
        assert(hex_digits(n / 16) =~= seq![hex_char(n / 16)]);
        assert(hex2(n) =~= seq![hex_char(n / 16), hex_char(n % 16)]);
    }
}

proof fn lemma_hex_digits_safe(n: nat)
    ensures
        forall|i: int| 0 <= i < hex_digits(n).len() ==> url_safe_char(#[trigger] hex_digits(n)[i]),
    decreases n,
{
    lemma_hex_char(n % 16);
    if n >= 16 {
        lemma_hex_digits_safe(n / 16);
        let h = hex_digits(n / 16);
        assert forall|i: int| 0 <= i < hex_digits(n).len() implies url_safe_char(#[trigger] hex_digits(n)[i]) by {
            if i < h.len() {
                assert(hex_digits(n)[i] == h[i]);
            }
        }
    } else {
        assert(hex_digits(n) =~= seq![hex_char(n)]);
    }
}

proof fn lemma_piece_safe(c: char)
    ensures
        forall|i: int| 0 <= i < url_piece(c).len() ==> url_safe_char(#[trigger] url_piece(c)[i]),
{
    let n = c as nat;
    if !(('A' <= c <= 'Z') || ('a' <= c <= 'z') || ('0' <= c <= '9') || c == '-' || c == '_' || c == '.' || c == '~'
        || c == ' ') {
        let h = hex2(n);
        if n < 16 {
            lemma_hex_char(n);
            assert(h =~= seq!['0', hex_char(n)]);
        } else {
            lemma_hex_digits_safe(n);
        }
        assert forall|i: int| 0 <= i < url_piece(c).len() implies url_safe_char(#[trigger] url_piece(c)[i]) by {
            if i > 0 {
                assert(url_piece(c)[i] == h[i - 1]);
            }
        }
    }
}

proof fn lemma_decode_piece(c: char, rest: Seq<char>)
    requires
        (c as nat) < 128,
    ensures
        form_decoded(url_piece(c) + rest) == seq![c] + form_decoded(rest),
{
    let p = url_piece(c);
    if ('A' <= c <= 'Z') || ('a' <= c <= 'z') || ('0' <= c <= '9') || c == '-' || c == '_' || c == '.' || c == '~' {
        assert((p + rest).skip(1) =~= rest);
    } else if c == ' ' {
        assert((p + rest).skip(1) =~= rest);
    } else {
        lemma_hex2_ascii(c as nat);
        let h = hex2(c as nat);
        assert((p + rest)[1] == h[0]);
        assert((p + rest)[2] == h[1]);
        assert((p + rest).skip(3) =~= rest);
        assert(((c as nat) as char) == c);
    }
}

/// Percent-encoding is undone by form decoding on ASCII text: decoding what
/// `url_encoded` wrote gives the text back. (Other characters are written as
/// `%` and their code point, not their UTF-8 bytes, so this holds for ASCII.)
pub proof fn law_url_round_trip(s: Seq<char>)
    requires
        is_ascii_text(s),
    ensures
        form_decoded(url_encoded(s)) == s,
    decreases s.len(),
{
    if s.len() == 0 {
        assert(form_decoded(url_encoded(s)) =~= s);
    } else {
        lemma_url_encoded_front(s);
        assert(is_ascii_text(s.skip(1)));
        law_url_round_trip(s.skip(1));
        lemma_decode_piece(s[0], url_encoded(s.skip(1)));
        assert(seq![s[0]] + s.skip(1) =~= s);
    }
}

/// `url_encoded` writes only letters, digits, `-_.~`, `+` and `%`.
pub proof fn law_url_alphabet(s: Seq<char>)
    ensures
        forall|i: int| 0 <= i < url_encoded(s).len() ==> url_safe_char(#[trigger] url_encoded(s)[i]),
    decreases s.len(),
{
    if s.len() > 0 {
        law_url_alphabet(s.drop_last());
        lemma_piece_safe(s.last());
        let a = url_encoded(s.drop_last());
        let b = url_piece(s.last());
        assert forall|i: int| 0 <= i < url_encoded(s).len() implies url_safe_char(#[trigger] url_encoded(s)[i]) by {
            if i < a.len() {
                assert(url_encoded(s)[i] == a[i]);
            } else {
                assert(url_encoded(s)[i] == b[i - a.len()]);
            }
        }
    }
}
} // verus!
