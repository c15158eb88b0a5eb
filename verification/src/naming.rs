//! Names, colors, URLs and display text: accent colors, app names stored on
//! VMs, public URLs, repository slugs, content types and text clipping.

use vstd::prelude::*;
use crate::text;
use vstd::string::StringSliceAdditionalSpecFns;

verus! {

/// The preset accent colors (name, RGB), in picker order.
pub const ACCENTS: [(&'static str, (u8, u8, u8)); 5] = [
    ("morado", (167, 139, 250)),
    ("verde", (122, 211, 161)),
    ("rosa", (244, 114, 182)),
    ("ámbar", (245, 196, 83)),
    ("cian", (45, 212, 191)),
];

/// Index of the "custom" accent choice (after the presets).
pub const CUSTOM_ACCENT: usize = 5;

/// RGB of preset `i` (`0 <= i < 5`).
pub open spec fn accent_rgb(i: int) -> (u8, u8, u8) {
    if i == 0 {
        (167, 139, 250)
    } else if i == 1 {
        (122, 211, 161)
    } else if i == 2 {
        (244, 114, 182)
    } else if i == 3 {
        (245, 196, 83)
    } else {
        (45, 212, 191)
    }
}

/// `#rrggbb` of an RGB triple.
pub open spec fn hex_color(c: (u8, u8, u8)) -> Seq<char> {
    seq!['#'] + text::hex2(c.0) + text::hex2(c.1) + text::hex2(c.2)
}

/// The hex code of preset accent `idx` (taken modulo the number of presets).
pub fn accent_hex(idx: usize) -> (r: String)
    ensures
        r@ == hex_color(accent_rgb(idx as int % 5)),
{
    let (_, (r, g, b)) = ACCENTS[idx % 5];
    assert((r, g, b) == accent_rgb(idx as int % 5));
    let mut s = String::new();
    text::push_char(&mut s, '#');
    text::push_hex2(&mut s, r);
    text::push_hex2(&mut s, g);
    text::push_hex2(&mut s, b);
    assert(s@ =~= hex_color(accent_rgb(idx as int % 5)));
    s
}

pub open spec fn all_hex(s: Seq<char>) -> bool {
    forall|i: int| 0 <= i < s.len() ==> text::is_ascii_hex(#[trigger] s[i])
}

/// `#rrggbb` (or `rrggbb`, surrounding white space allowed) in lowercase, or
/// `None` when it is not six hexadecimal digits.
pub open spec fn normalized_hex(s: Seq<char>) -> Option<Seq<char>> {
    let h = text::strip_leading(text::trim(s), '#');
    if h.len() == 6 && all_hex(h) {
        Some(seq!['#'] + text::lower(h))
    } else {
        None
    }
}

/// Normalizes a hex color to `#rrggbb` in lowercase; `None` if invalid.
pub fn normalize_hex(s: &str) -> (r: Option<String>)
    ensures
        match r {
            Some(x) => normalized_hex(s@) == Some(x@),
            None => normalized_hex(s@) is None,
        },
{
    let v = text::chars_of(s);
    let t = text::trim_vec(&v);
    let h = text::strip_leading_vec(&t, '#');
    if h.len() != 6 {
        return None;
    }
    let mut i: usize = 0;
    while i < 6
        invariant
            h@.len() == 6,
            h@ == text::strip_leading(text::trim(s@), '#'),
            i <= 6,
            forall|j: int| 0 <= j < i ==> text::is_ascii_hex(#[trigger] h@[j]),
        decreases 6 - i,
    {
        let c = h[i];
        if !(('0' <= c && c <= '9') || ('a' <= c && c <= 'f') || ('A' <= c && c <= 'F')) {
            assert(!text::is_ascii_hex(h@[i as int]));
            return None;
        }
        i = i + 1;
    }
    let l = text::lower_vec(&h);
    let mut out = String::new();
    text::push_char(&mut out, '#');
    text::push_chars(&mut out, &l);
    assert(out@ =~= seq!['#'] + text::lower(h@));
    Some(out)
}

/// The value of hexadecimal digit `c`.
pub open spec fn hex_val(c: char) -> int {
    if text::is_ascii_digit(c) {
        c as int - '0' as int
    } else if 'a' <= c && c <= 'f' {
        c as int - 'a' as int + 10
    } else {
        c as int - 'A' as int + 10
    }
}

/// The byte written by the two digits of `h` at `i` and `i + 1`.
pub open spec fn hex_pair(h: Seq<char>, i: int) -> int {
    16 * hex_val(h[i]) + hex_val(h[i + 1])
}

/// The red, green and blue bytes of a hex color, `None` when it is invalid.
pub open spec fn rgb_of_hex(s: Seq<char>) -> Option<(int, int, int)> {
    match normalized_hex(s) {
        Some(h) => Some((hex_pair(h, 1), hex_pair(h, 3), hex_pair(h, 5))),
        None => None,
    }
}

fn hex_value(c: char) -> (r: u8)
    requires
        text::is_ascii_hex(c),
    ensures
        r == hex_val(c),
        r < 16,
{
    if '0' <= c && c <= '9' {
        (c as u32 - '0' as u32) as u8
    } else if 'a' <= c && c <= 'f' {
        (c as u32 - 'a' as u32 + 10) as u8
    } else {
        (c as u32 - 'A' as u32 + 10) as u8
    }
}

/// The red, green and blue bytes of a hex color (`#rrggbb` or `rrggbb`, any
/// case, surrounding white space allowed); `None` when it is invalid.
pub fn hex_rgb(s: &str) -> (r: Option<(u8, u8, u8)>)
    ensures
        match r {
            Some((red, green, blue)) => rgb_of_hex(s@) == Some((red as int, green as int, blue as int)),
            None => rgb_of_hex(s@) is None,
        },
{
    match normalize_hex(s) {
        None => None,
        Some(n) => {
            let v = text::chars_of(n.as_str());
            let ghost h = text::strip_leading(text::trim(s@), '#');
            proof {
                assert(v@ == seq!['#'] + text::lower(h));
                assert forall|i: int| 1 <= i < 7 implies text::is_ascii_hex(#[trigger] v@[i]) by {
                    assert(v@[i] == text::lower_char(h[i - 1]));
                    assert(text::is_ascii_hex(h[i - 1]));
                }
            }
            let red = 16 * hex_value(v[1]) + hex_value(v[2]);
            let green = 16 * hex_value(v[3]) + hex_value(v[4]);
            let blue = 16 * hex_value(v[5]) + hex_value(v[6]);
            Some((red, green, blue))
        },
    }
}

proof fn lemma_hex_digit_is_hex(d: int)
    requires
        0 <= d < 16,
    ensures
        text::is_ascii_hex(text::hex_digit(d)),
        !text::is_ascii_upper(text::hex_digit(d)),
        text::hex_digit(d) != '#',
{
}

proof fn lemma_lower_of_lower_hex(h: Seq<char>)
    requires
        all_hex(h),
    ensures
        all_hex(text::lower(h)),
        text::lower(text::lower(h)) == text::lower(h),
{
    let l = text::lower(h);
    assert forall|i: int| 0 <= i < l.len() implies text::is_ascii_hex(#[trigger] l[i]) by {
        assert(text::is_ascii_hex(h[i]));
    }
    assert(text::lower(l) =~= l);
}

/// Normalizing is idempotent: a normalized color normalizes to itself.
pub proof fn lemma_normalize_hex_idempotent(s: Seq<char>)
    requires
        normalized_hex(s) is Some,
    ensures
        normalized_hex(normalized_hex(s)->0) == normalized_hex(s),
{
    let h = text::strip_leading(text::trim(s), '#');
    let l = text::lower(h);
    lemma_lower_of_lower_hex(h);
    let x = seq!['#'] + l;
    assert(x.last() == l[5]);
    assert(text::is_ascii_hex(l[5]));
    text::lemma_trim_fixed(x);
    assert(x[0] == '#');
    assert(x.drop_first() =~= l);
    assert(text::is_ascii_hex(l[0]));
    assert(text::strip_leading(x, '#') == text::strip_leading(l, '#'));
    assert(text::strip_leading(l, '#') == l);
}

/// Every preset accent is a normalized color.
pub proof fn lemma_accent_hex_is_normalized(i: int)
    requires
        0 <= i < 5,
    ensures
        normalized_hex(hex_color(accent_rgb(i))) == Some(hex_color(accent_rgb(i))),
{
    let c = accent_rgb(i);
    let body = text::hex2(c.0) + text::hex2(c.1) + text::hex2(c.2);
    let x = hex_color(c);
    assert(x =~= seq!['#'] + body);
    assert(body.len() == 6);
    assert forall|j: int| 0 <= j < 6 implies text::is_ascii_hex(#[trigger] body[j]) && !text::is_ascii_upper(body[j]) && body[j] != '#' by {
        if j < 2 {
            lemma_hex_digit_is_hex(c.0 as int / 16);
            lemma_hex_digit_is_hex(c.0 as int % 16);
        } else if j < 4 {
            lemma_hex_digit_is_hex(c.1 as int / 16);
            lemma_hex_digit_is_hex(c.1 as int % 16);
        } else {
            lemma_hex_digit_is_hex(c.2 as int / 16);
            lemma_hex_digit_is_hex(c.2 as int % 16);
        }
    }
    assert(x.last() == body[5]);
    text::lemma_trim_fixed(x);
    assert(x.drop_first() =~= body);
    assert(text::strip_leading(x, '#') == text::strip_leading(body, '#'));
    assert(text::strip_leading(body, '#') == body);
    assert(text::lower(body) =~= body);
}

/// Whether `c` is alphabetic or numeric in Unicode (`char::is_alphanumeric`).
pub uninterp spec fn unicode_alphanumeric(c: char) -> bool;

/// `char::is_alphanumeric`: the contract only names its answer
/// (`unicode_alphanumeric`), a property of the character alone; the Unicode
/// tables behind it are not restated here.
#[verifier::external_body]
fn is_alphanumeric(c: char) -> (r: bool)
    ensures
        r == unicode_alphanumeric(c),
{
    c.is_alphanumeric()
}

/// Characters an app name may keep.
pub open spec fn name_char_ok(c: char) -> bool {
    unicode_alphanumeric(c) || c == ' ' || c == '-' || c == '_'
}

/// The characters of `s` that an app name may keep, in order.
pub open spec fn name_chars(s: Seq<char>) -> Seq<char>
    decreases s.len(),
{
    if s.len() == 0 {
        s
    } else if name_char_ok(s.last()) {
        name_chars(s.drop_last()).push(s.last())
    } else {
        name_chars(s.drop_last())
    }
}

/// The app name as stored: allowed characters only, at most 40 of them,
/// trimmed, and `Mi app` when nothing is left.
pub open spec fn safe_name_of(s: Seq<char>) -> Seq<char> {
    let n = text::trim(text::take_at_most(name_chars(s), 40));
    if n.len() == 0 {
        "Mi app"@
    } else {
        n
    }
}

/// Sanitizes an app name so it can travel inside a single-quoted shell word.
pub fn safe_name(name: &str) -> (r: String)
    ensures
        r@ == safe_name_of(name@),
{
    let v = text::chars_of(name);
    let mut kept: Vec<char> = Vec::new();
    let mut i: usize = 0;
    while i < v.len()
        invariant
            i <= v@.len(),
            kept@ == text::take_at_most(name_chars(v@.take(i as int)), 40),
        decreases v@.len() - i,
    {
        let c = v[i];
        let ok = is_alphanumeric(c) || c == ' ' || c == '-' || c == '_';
        proof {
            let pre = v@.take(i as int);
            assert(v@.take(i + 1).drop_last() =~= pre);
            assert(v@.take(i + 1).last() == c);
        }
        if ok && kept.len() < 40 {
            proof {
                let nc = name_chars(v@.take(i as int));
                assert(nc.len() < 40 || kept@ == nc.take(40));
            }
            kept.push(c);
            proof {
                let nc = name_chars(v@.take(i as int));
                if nc.len() > 40 {
                    assert(false);
                } else if nc.len() == 40 {
                    assert(kept@.len() == 41);
                    assert(false);
                }
            }
        } else if ok {
            proof {
                let nc = name_chars(v@.take(i as int));
                assert(nc.push(c).take(40) =~= text::take_at_most(nc, 40));
            }
        }
        i = i + 1;
    }
    assert(v@.take(v@.len() as int) =~= v@);
    let t = text::trim_vec(&kept);
    if t.len() == 0 {
        let mut d = String::new();
        text::push_str(&mut d, "Mi app");
        assert(d@ =~= "Mi app"@);
        d
    } else {
        text::string_of(&t)
    }
}

/// Prefix of a VM name that marks an app published by this launcher.
pub const APP_PREFIX: &'static str = "gl:";

/// The VM name for an app.
pub open spec fn marker_of(app_name: Seq<char>) -> Seq<char> {
    "gl:"@ + safe_name_of(app_name)
}

/// The VM name recorded for an app: the marker prefix and the safe name.
pub fn marker_name(app_name: &str) -> (r: String)
    ensures
        r@ == marker_of(app_name@),
{
    let mut s = String::new();
    text::push_str(&mut s, "gl:");
    let n = safe_name(app_name);
    let nv = text::chars_of(n.as_str());
    text::push_chars(&mut s, &nv);
    assert(s@ =~= marker_of(app_name@));
    s
}

/// The app name shown for a VM name: what follows the marker, or `app`.
pub open spec fn display_of(sandbox_name: Option<Seq<char>>) -> Seq<char> {
    match sandbox_name {
        Some(n) => if text::starts_with(n, "gl:"@) {
            n.skip("gl:"@.len() as int)
        } else {
            "app"@
        },
        None => "app"@,
    }
}

pub open spec fn opt_view(o: Option<String>) -> Option<Seq<char>> {
    match o {
        Some(s) => Some(s@),
        None => None,
    }
}

pub fn display_name(sandbox_name: &Option<String>) -> (r: String)
    ensures
        r@ == display_of(opt_view(*sandbox_name)),
{
    match sandbox_name {
        Some(n) => {
            let v = text::chars_of(n.as_str());
            if text::vec_starts_with(&v, "gl:") {
                let m = "gl:".unicode_len();
                let rest = text::slice_vec(&v, m, v.len());
                assert(rest@ =~= v@.skip(m as int));
                return text::string_of(&rest);
            }
        },
        None => {},
    }
    let mut d = String::new();
    text::push_str(&mut d, "app");
    assert(d@ =~= "app"@);
    d
}

/// The app name shown for a VM is the safe form of the name it was created
/// with: naming a VM and reading its name back agree.
pub proof fn lemma_display_of_marker(app_name: Seq<char>)
    ensures
        display_of(Some(marker_of(app_name))) == safe_name_of(app_name),
{
    let m = marker_of(app_name);
    assert(m.take("gl:"@.len() as int) =~= "gl:"@);
    assert(m.skip("gl:"@.len() as int) =~= safe_name_of(app_name));
}

/// The public URL of an exposed VM port: `https://sb-<id>-<port>.sandboxes.easybits.cloud`.
pub open spec fn public_url_of(id: Seq<char>, port: u16) -> Seq<char> {
    "https://"@ + text::replace_first(id, "sb_"@, "sb-"@) + seq!['-'] + text::dec(port as nat)
        + ".sandboxes.easybits.cloud"@
}

/// The public URL of a VM's exposed port, rebuilt from its id (no network).
pub fn public_url(id: &str, port: u16) -> (r: String)
    ensures
        r@ == public_url_of(id@, port),
{
    let v = text::chars_of(id);
    proof {
        reveal_strlit("sb_");
    }
    let host = text::replace_first_vec(&v, "sb_", "sb-");
    let mut s = String::new();
    text::push_str(&mut s, "https://");
    text::push_chars(&mut s, &host);
    text::push_char(&mut s, '-');
    text::push_dec(&mut s, port as u64);
    text::push_str(&mut s, ".sandboxes.easybits.cloud");
    assert(s@ =~= public_url_of(id@, port));
    s
}

/// `owner/repo` from a GitHub URL in https, ssh or slug form.
pub open spec fn repo_slug_of(repo: Seq<char>) -> Seq<char> {
    let s = text::trim(repo);
    let s = text::strip_prefix_once(s, "git@github.com:"@);
    let s = text::strip_prefix_once(s, "https://"@);
    let s = text::strip_prefix_once(s, "http://"@);
    let s = text::strip_prefix_once(s, "github.com/"@);
    text::strip_suffix_all(text::strip_trailing(s, '/'), ".git"@)
}

pub fn repo_slug(repo: &str) -> (r: String)
    ensures
        r@ == repo_slug_of(repo@),
{
    let v = text::chars_of(repo);
    let s = text::trim_vec(&v);
    let s = text::strip_prefix_vec(&s, "git@github.com:");
    let s = text::strip_prefix_vec(&s, "https://");
    let s = text::strip_prefix_vec(&s, "http://");
    let s = text::strip_prefix_vec(&s, "github.com/");
    let s = text::strip_trailing_vec(&s, '/');
    let s = text::strip_suffix_all_vec(&s, ".git");
    text::string_of(&s)
}

/// The public https clone URL of a repository given in any form.
pub open spec fn repo_https_of(repo: Seq<char>) -> Seq<char> {
    "https://github.com/"@ + repo_slug_of(repo) + ".git"@
}

pub fn repo_https(repo: &str) -> (r: String)
    ensures
        r@ == repo_https_of(repo@),
{
    let slug = repo_slug(repo);
    let sv = text::chars_of(slug.as_str());
    let mut s = String::new();
    text::push_str(&mut s, "https://github.com/");
    text::push_chars(&mut s, &sv);
    text::push_str(&mut s, ".git");
    assert(s@ =~= repo_https_of(repo@));
    s
}

/// The extension of a file name: what follows its last `.` (the whole name
/// when it has none), ASCII-lowercased.
pub open spec fn extension_of(name: Seq<char>) -> Seq<char> {
    text::lower(name.skip(text::rfind_char(name, '.') + 1))
}

/// The `Content-Type` served for a file name, by extension.
pub open spec fn content_type_of(name: Seq<char>) -> Seq<char> {
    let e = extension_of(name);
    if e == "html"@ || e == "htm"@ {
        "text/html; charset=utf-8"@
    } else if e == "css"@ {
        "text/css; charset=utf-8"@
    } else if e == "js"@ || e == "mjs"@ {
        "application/javascript"@
    } else if e == "json"@ {
        "application/json"@
    } else if e == "svg"@ {
        "image/svg+xml"@
    } else if e == "png"@ {
        "image/png"@
    } else if e == "jpg"@ || e == "jpeg"@ {
        "image/jpeg"@
    } else if e == "gif"@ {
        "image/gif"@
    } else if e == "webp"@ {
        "image/webp"@
    } else if e == "ico"@ {
        "image/x-icon"@
    } else if e == "woff2"@ {
        "font/woff2"@
    } else if e == "txt"@ {
        "text/plain; charset=utf-8"@
    } else {
        "application/octet-stream"@
    }
}

/// The `Content-Type` to upload a static-site file with.
pub fn content_type_for(name: &str) -> (r: &'static str)
    ensures
        r@ == content_type_of(name@),
{
    let v = text::chars_of(name);
    let n = v.len();
    let start = match text::rfind_vec(&v, '.') {
        Some(i) => i + 1,
        None => 0,
    };
    let tail = text::slice_vec(&v, start, v.len());
    assert(tail@ =~= v@.skip(text::rfind_char(v@, '.') + 1));
    let e = text::lower_vec(&tail);
    if text::vec_eq_str(&e, "html") || text::vec_eq_str(&e, "htm") {
        "text/html; charset=utf-8"
    } else if text::vec_eq_str(&e, "css") {
        "text/css; charset=utf-8"
    } else if text::vec_eq_str(&e, "js") || text::vec_eq_str(&e, "mjs") {
        "application/javascript"
    } else if text::vec_eq_str(&e, "json") {
        "application/json"
    } else if text::vec_eq_str(&e, "svg") {
        "image/svg+xml"
    } else if text::vec_eq_str(&e, "png") {
        "image/png"
    } else if text::vec_eq_str(&e, "jpg") || text::vec_eq_str(&e, "jpeg") {
        "image/jpeg"
    } else if text::vec_eq_str(&e, "gif") {
        "image/gif"
    } else if text::vec_eq_str(&e, "webp") {
        "image/webp"
    } else if text::vec_eq_str(&e, "ico") {
        "image/x-icon"
    } else if text::vec_eq_str(&e, "woff2") {
        "font/woff2"
    } else if text::vec_eq_str(&e, "txt") {
        "text/plain; charset=utf-8"
    } else {
        "application/octet-stream"
    }
}

/// `n` copies of the masking bullet.
pub open spec fn bullets(n: nat) -> Seq<char> {
    Seq::new(n, |i: int| '•')
}

/// A key as shown while typed: up to 8 characters are all masked, longer keys
/// show their first 6 characters.
pub open spec fn masked(key: Seq<char>) -> Seq<char> {
    if key.len() <= 8 {
        bullets(key.len())
    } else {
        key.take(6) + bullets((key.len() - 6) as nat)
    }
}

fn push_bullets(s: &mut String, n: usize)
    ensures
        final(s)@ == old(s)@ + bullets(n as nat),
{
    let mut i: usize = 0;
    while i < n
        invariant
            i <= n,
            s@ == old(s)@ + bullets(i as nat),
        decreases n - i,
    {
        text::push_char(s, '•');
        assert(bullets((i + 1) as nat) =~= bullets(i as nat).push('•'));
        i = i + 1;
    }
}

pub fn mask_key(key: &str) -> (r: String)
    ensures
        r@ == masked(key@),
{
    let v = text::chars_of(key);
    let n = v.len();
    let mut s = String::new();
    if n <= 8 {
        push_bullets(&mut s, n);
    } else {
        let head = text::slice_vec(&v, 0, 6);
        text::push_chars(&mut s, &head);
        push_bullets(&mut s, n - 6);
    }
    assert(s@ =~= masked(key@));
    s
}

/// The trimmed text, or `…` and its last `max` characters when longer.
pub open spec fn keep_tail(s: Seq<char>, max: int) -> Seq<char> {
    let t = text::trim(s);
    if t.len() > max {
        seq!['…'] + t.skip(t.len() - max)
    } else {
        t
    }
}

/// Shortens a step detail for display, keeping its end.
pub fn truncate(s: &str, max: usize) -> (r: String)
    ensures
        r@ == keep_tail(s@, max as int),
{
    let v = text::chars_of(s);
    let t = text::trim_vec(&v);
    if t.len() > max {
        let tail = text::slice_vec(&t, t.len() - max, t.len());
        let mut r = String::new();
        text::push_char(&mut r, '…');
        text::push_chars(&mut r, &tail);
        assert(r@ =~= keep_tail(s@, max as int));
        r
    } else {
        text::string_of(&t)
    }
}

/// The trimmed text, or its first `max` characters and `…` when longer.
pub open spec fn keep_head(s: Seq<char>, max: int) -> Seq<char> {
    let t = text::trim(s);
    if t.len() > max {
        t.take(max).push('…')
    } else {
        t
    }
}

/// Shortens a raw response body for a debug print, keeping its start.
pub fn trunc(s: &str, max: usize) -> (r: String)
    ensures
        r@ == keep_head(s@, max as int),
{
    let v = text::chars_of(s);
    let t = text::trim_vec(&v);
    if t.len() > max {
        let head = text::slice_vec(&t, 0, max);
        let mut r = text::string_of(&head);
        text::push_char(&mut r, '…');
        assert(r@ =~= keep_head(s@, max as int));
        r
    } else {
        text::string_of(&t)
    }
}

/// The trimmed text, or its first two thirds and last third (of `max`
/// characters) around a cut marker when longer.
pub open spec fn clipped(s: Seq<char>, max: int) -> Seq<char> {
    let t = text::trim(s);
    if t.len() <= max {
        t
    } else {
        t.take(max * 2 / 3) + "\n…[recortado]…\n"@ + t.skip(t.len() - max / 3)
    }
}

/// Shortens long tool output while keeping both its head and its tail.
pub fn clip(s: &str, max: usize) -> (r: String)
    requires
        max <= usize::MAX / 2,
    ensures
        r@ == clipped(s@, max as int),
{
    let v = text::chars_of(s);
    let t = text::trim_vec(&v);
    if t.len() <= max {
        return text::string_of(&t);
    }
    let h = max * 2 / 3;
    let k = max / 3;
    let head = text::slice_vec(&t, 0, h);
    let tail = text::slice_vec(&t, t.len() - k, t.len());
    let mut r = text::string_of(&head);
    text::push_str(&mut r, "\n…[recortado]…\n");
    text::push_chars(&mut r, &tail);
    assert(r@ =~= clipped(s@, max as int));
    r
}

/// Drops the trailing non-space characters.
pub open spec fn drop_word(s: Seq<char>) -> Seq<char>
    decreases s.len(),
{
    if s.len() > 0 && s.last() != ' ' {
        drop_word(s.drop_last())
    } else {
        s
    }
}

/// Ctrl+W: trailing spaces, then the last word, are removed.
pub open spec fn without_last_word(s: Seq<char>) -> Seq<char> {
    drop_word(text::strip_trailing(s, ' '))
}

/// Deletes the last word of an input buffer (with the spaces after it).
pub fn delete_last_word(s: &mut String)
    ensures
        final(s)@ == without_last_word(old(s)@),
{
    let v = text::chars_of(s.as_str());
    let t = text::strip_trailing_vec(&v, ' ');
    let mut k: usize = t.len();
    assert(t@.take(k as int) =~= t@);
    while k > 0 && t[k - 1] != ' '
        invariant
            k <= t@.len(),
            drop_word(t@) == drop_word(t@.take(k as int)),
        decreases k,
    {
        assert(t@.take(k as int).drop_last() =~= t@.take(k - 1));
        k = k - 1;
    }
    proof {
        if k > 0 {
            assert(t@.take(k as int).last() == t@[k - 1]);
        }
    }
    let r = text::slice_vec(&t, 0, k);
    assert(r@ =~= t@.take(k as int));
    *s = text::string_of(&r);
}

pub proof fn lemma_drop_word_prefix(s: Seq<char>)
    ensures
        drop_word(s).len() <= s.len(),
        drop_word(s) == s.take(drop_word(s).len() as int),
        drop_word(s).len() == 0 || drop_word(s).last() == ' ',
    decreases s.len(),
{
    if s.len() > 0 && s.last() != ' ' {
        lemma_drop_word_prefix(s.drop_last());
        let d = drop_word(s.drop_last());
        assert(s.drop_last().take(d.len() as int) =~= s.take(d.len() as int));
    } else {
        assert(s.take(s.len() as int) =~= s);
    }
}

pub proof fn lemma_strip_trailing_prefix(s: Seq<char>, c: char)
    ensures
        text::strip_trailing(s, c).len() <= s.len(),
        text::strip_trailing(s, c) == s.take(text::strip_trailing(s, c).len() as int),
    decreases s.len(),
{
    if s.len() > 0 && s.last() == c {
        lemma_strip_trailing_prefix(s.drop_last(), c);
        let d = text::strip_trailing(s.drop_last(), c);
        assert(s.drop_last().take(d.len() as int) =~= s.take(d.len() as int));
    } else {
        assert(s.take(s.len() as int) =~= s);
    }
}

/// Deleting the last word only ever cuts the end of the buffer, and what is
/// left is empty or ends at a word boundary (a space).
pub proof fn lemma_delete_last_word_is_prefix(s: Seq<char>)
    ensures
        without_last_word(s).len() <= s.len(),
        without_last_word(s) == s.take(without_last_word(s).len() as int),
        without_last_word(s).len() == 0 || without_last_word(s).last() == ' ',
{
    let t = text::strip_trailing(s, ' ');
    lemma_strip_trailing_prefix(s, ' ');
    lemma_drop_word_prefix(t);
    let d = drop_word(t);
    assert(t.take(d.len() as int) =~= s.take(d.len() as int));
}

/// Whether `trim_log` can cut `s`: when the trimmed text is longer than 200
/// bytes, the cut 200 bytes before its end falls on a character boundary.
pub open spec fn log_cut_ok(s: Seq<char>) -> bool {
    let b = vstd::utf8::encode_utf8(text::trim(s));
    b.len() > 200 ==> vstd::utf8::is_char_boundary(b, b.len() - 200)
}

/// The trimmed log, or `…` and its last 200 bytes when longer.
pub open spec fn log_tail(s: Seq<char>) -> Seq<char> {
    let t = text::trim(s);
    let b = vstd::utf8::encode_utf8(t);
    if b.len() > 200 {
        seq!['…'] + vstd::utf8::decode_utf8(b.subrange(b.len() - 200, b.len() as int))
    } else {
        t
    }
}

/// Keeps the end of a log for a one-line error detail.
pub fn trim_log(s: &str) -> (r: String)
    requires
        log_cut_ok(s@),
    ensures
        r@ == log_tail(s@),
{
    let t = text::trim_str(s);
    let ts = t.as_str();
    let n = ts.as_bytes().len();
    assert(ts@ == text::trim(s@));
    assert(ts.spec_bytes() == vstd::utf8::encode_utf8(text::trim(s@)));
    if n > 200 {
        let (_, tail) = ts.split_at(n - 200);
        proof {
            vstd::utf8::encode_utf8_decode_utf8(tail@);
        }
        let tv = text::chars_of(tail);
        let mut r = String::new();
        text::push_char(&mut r, '…');
        text::push_chars(&mut r, &tv);
        assert(r@ =~= log_tail(s@));
        r
    } else {
        t
    }
}


/// Whether `trim_log` accepts `s` (see `log_cut_ok`).
pub fn can_trim_log(s: &str) -> (r: bool)
    ensures
        r == log_cut_ok(s@),
{
    let t = text::trim_str(s);
    let ts = t.as_str();
    let n = ts.as_bytes().len();
    assert(ts.spec_bytes() == vstd::utf8::encode_utf8(text::trim(s@)));
    if n > 200 {
        ts.is_char_boundary(n - 200)
    } else {
        true
    }
}


/// The `Content-Type` of an uploaded logo, by extension.
pub open spec fn image_type_of(name: Seq<char>) -> Seq<char> {
    let e = extension_of(name);
    if e == "png"@ {
        "image/png"@
    } else if e == "jpg"@ || e == "jpeg"@ {
        "image/jpeg"@
    } else if e == "gif"@ {
        "image/gif"@
    } else if e == "svg"@ {
        "image/svg+xml"@
    } else if e == "webp"@ {
        "image/webp"@
    } else {
        "application/octet-stream"@
    }
}

pub fn image_content_type(name: &str) -> (r: &'static str)
    ensures
        r@ == image_type_of(name@),
{
    let v = text::chars_of(name);
    let n = v.len();
    let start = match text::rfind_vec(&v, '.') {
        Some(i) => i + 1,
        None => 0,
    };
    let tail = text::slice_vec(&v, start, v.len());
    assert(tail@ =~= v@.skip(text::rfind_char(v@, '.') + 1));
    let e = text::lower_vec(&tail);
    if text::vec_eq_str(&e, "png") {
        "image/png"
    } else if text::vec_eq_str(&e, "jpg") || text::vec_eq_str(&e, "jpeg") {
        "image/jpeg"
    } else if text::vec_eq_str(&e, "gif") {
        "image/gif"
    } else if text::vec_eq_str(&e, "svg") {
        "image/svg+xml"
    } else if text::vec_eq_str(&e, "webp") {
        "image/webp"
    } else {
        "application/octet-stream"
    }
}

/// Where a logo comes from: nothing, a URL used as is, or a local file (a
/// dragged path may come wrapped in quotes).
#[derive(Debug, Clone, PartialEq, Eq)]
pub enum LogoSource {
    Nothing,
    Url(String),
    Path(String),
}

pub open spec fn strip_both(s: Seq<char>, c: char) -> Seq<char> {
    text::strip_trailing(text::strip_leading(s, c), c)
}

/// A local logo path: the input without surrounding quotes and white space.
pub open spec fn logo_path_of(t: Seq<char>) -> Seq<char> {
    text::trim(strip_both(strip_both(t, '\''), '"'))
}

pub open spec fn is_url(t: Seq<char>) -> bool {
    text::starts_with(t, "http://"@) || text::starts_with(t, "https://"@)
}

/// Classifies the logo field.
pub fn logo_source(raw: &str) -> (r: LogoSource)
    ensures
        ({
            let t = text::trim(raw@);
            match r {
                LogoSource::Nothing => t.len() == 0,
                LogoSource::Url(u) => t.len() > 0 && is_url(t) && u@ == t,
                LogoSource::Path(p) => t.len() > 0 && !is_url(t) && p@ == logo_path_of(t),
            }
        }),
{
    let v = text::chars_of(raw);
    let t = text::trim_vec(&v);
    if t.len() == 0 {
        return LogoSource::Nothing;
    }
    if text::vec_starts_with(&t, "http://") || text::vec_starts_with(&t, "https://") {
        return LogoSource::Url(text::string_of(&t));
    }
    let a = text::strip_leading_vec(&t, '\'');
    let a = text::strip_trailing_vec(&a, '\'');
    let b = text::strip_leading_vec(&a, '"');
    let b = text::strip_trailing_vec(&b, '"');
    let c = text::trim_vec(&b);
    LogoSource::Path(text::string_of(&c))
}

/// The name of a static site: the last segment of the repository's slug.
pub open spec fn site_name_of(repo: Seq<char>) -> Seq<char> {
    let slug = repo_slug_of(repo);
    slug.skip(text::rfind_char(slug, '/') + 1)
}

pub fn site_name(repo: &str) -> (r: String)
    ensures
        r@ == site_name_of(repo@),
{
    let slug = repo_slug(repo);
    let v = text::chars_of(slug.as_str());
    let n = v.len();
    let start = match text::rfind_vec(&v, '/') {
        Some(i) => i + 1,
        None => 0,
    };
    let tail = text::slice_vec(&v, start, v.len());
    assert(tail@ =~= v@.skip(text::rfind_char(v@, '/') + 1));
    text::string_of(&tail)
}

} // verus!
