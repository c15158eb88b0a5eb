//! The ghost's eyes: the idle expressions (pseudo-random but deterministic in
//! the animation tick) and the "working" trance; and the sparkles that drift
//! around the ghost while it works.

use vstd::prelude::*;

verus! {

/// The mixing hash of a tick: `(tick * K).rotate_left(13) ^ (tick << 7)`.
pub open spec fn eye_hash(tick: u64) -> u64 {
    let m = tick.wrapping_mul(0x9E37_79B9_7F4A_7C15u64);
    ((m << 13u64) | (m >> 51u64)) ^ (tick << 7u64)
}

/// The idle expression and its length in ticks, for a hash value.
pub open spec fn eyes_for(h: u64) -> ((Seq<char>, Seq<char>), u64) {
    let pick = h % 100;
    let jitter = h % 10;
    if pick <= 55 {
        (("●"@, "●"@), (40 + jitter * 4) as u64)
    } else if pick <= 65 {
        (("◑"@, "◑"@), (24 + jitter) as u64)
    } else if pick <= 75 {
        (("◐"@, "◐"@), (24 + jitter) as u64)
    } else if pick <= 82 {
        (("◓"@, "◓"@), (22 + jitter) as u64)
    } else if pick <= 88 {
        (("◒"@, "◒"@), (22 + jitter) as u64)
    } else if pick <= 94 {
        (("◕"@, "◕"@), (26 + jitter) as u64)
    } else if pick <= 97 {
        (("◐"@, "◑"@), (14 + jitter) as u64)
    } else {
        (("─"@, "─"@), 2)
    }
}

pub open spec fn pair_view(p: (&'static str, &'static str)) -> (Seq<char>, Seq<char>) {
    (p.0@, p.1@)
}

/// The next idle expression (left, right eye) and how many ticks it lasts:
/// mostly neutral, sometimes a glance, a smile, a short blink, rarely crossed.
pub fn next_eyes(tick: u64) -> (r: ((&'static str, &'static str), u64))
    ensures
        (pair_view(r.0), r.1) == eyes_for(eye_hash(tick)),
{
    let m = tick.wrapping_mul(0x9E37_79B9_7F4A_7C15u64);
    let h = ((m << 13u64) | (m >> 51u64)) ^ (tick << 7u64);
    let pick = h % 100;
    let jitter = h % 10;
    if pick <= 55 {
        (("●", "●"), 40 + jitter * 4)
    } else if pick <= 65 {
        (("◑", "◑"), 24 + jitter)
    } else if pick <= 75 {
        (("◐", "◐"), 24 + jitter)
    } else if pick <= 82 {
        (("◓", "◓"), 22 + jitter)
    } else if pick <= 88 {
        (("◒", "◒"), 22 + jitter)
    } else if pick <= 94 {
        (("◕", "◕"), 26 + jitter)
    } else if pick <= 97 {
        (("◐", "◑"), 14 + jitter)
    } else {
        (("─", "─"), 2)
    }
}

/// Frame `i` (`0 <= i < 6`) of the hypnotic vortex.
pub open spec fn vortex(i: int) -> Seq<char> {
    if i == 0 {
        "◌"@
    } else if i == 1 || i == 5 {
        "◍"@
    } else if i == 2 || i == 4 {
        "◎"@
    } else {
        "◉"@
    }
}

fn vortex_frame(i: u64) -> (r: &'static str)
    requires
        i < 6,
    ensures
        r@ == vortex(i as int),
{
    if i == 0 {
        "◌"
    } else if i == 1 || i == 5 {
        "◍"
    } else if i == 2 || i == 4 {
        "◎"
    } else {
        "◉"
    }
}

/// Eyes while working: closed for most of an 80-tick cycle, half-open for
/// four ticks, then a trance where both eyes pulse half a cycle apart.
pub open spec fn working_eyes_of(tick: u64) -> (Seq<char>, Seq<char>) {
    let cycle = tick % 80;
    if cycle <= 43 {
        ("─"@, "─"@)
    } else if cycle <= 47 {
        ("◡"@, "◡"@)
    } else {
        (vortex((tick / 2) as int % 6), vortex(((tick / 2) as int + 3) % 6))
    }
}

/// The eyes for the "working" screen at `tick`.
pub fn working_eyes(tick: u64) -> (r: (&'static str, &'static str))
    ensures
        pair_view(r) == working_eyes_of(tick),
{
    let cycle = tick % 80;
    if cycle <= 43 {
        ("─", "─")
    } else if cycle <= 47 {
        ("◡", "◡")
    } else {
        let half = tick / 2;
        let l = vortex_frame(half % 6);
        let r = vortex_frame((half % 6 + 3) % 6);
        assert((half as int + 3) % 6 == (half as int % 6 + 3) % 6);
        (l, r)
    }
}


/// One cell of a sparkle strip.
#[derive(Clone, Copy, PartialEq, Eq, Debug, Structural)]
pub enum Spark {
    Blank,
    /// A glyph, drawn in the bright accent or in the soft one.
    Glyph { glyph: char, bright: bool },
}

/// The sparkle glyphs, by index.
pub open spec fn spark_glyph(k: int) -> char {
    if k == 0 {
        '·'
    } else if k == 2 {
        '✧'
    } else {
        '✦'
    }
}

/// The cell of column `col` at tick `tick`: lit for 3 of every 29 phases
/// (bright in the middle one), its glyph changing every 3 ticks.
pub open spec fn spark_at(tick: int, col: int) -> Spark {
    let phase = (col * 5 + tick) % 29;
    if phase < 3 {
        Spark::Glyph { glyph: spark_glyph((col + tick / 3) % 4), bright: phase == 1 }
    } else {
        Spark::Blank
    }
}

/// The strip of `width` cells starting at column `seed` (seeds keep the
/// strips around the ghost out of step).
pub fn spark_strip(tick: u64, seed: i64, width: i64) -> (r: Vec<Spark>)
    requires
        tick <= i64::MAX,
        width > 0 ==> i64::MIN <= 5 * seed && 5 * (seed + width - 1) + tick <= i64::MAX,
    ensures
        r@.len() == if width > 0 {
            width as int
        } else {
            0
        },
        forall|x: int| 0 <= x < r@.len() ==> #[trigger] r@[x] == spark_at(tick as int, x + seed),
{
    let mut r: Vec<Spark> = Vec::new();
    if width <= 0 {
        return r;
    }
    let t = tick as i64;
    let t3 = (tick / 3) as i64;
    let mut x: i64 = 0;
    while x < width
        invariant
            0 <= x <= width,
            t == tick,
            t3 == tick / 3,
            tick <= i64::MAX,
            i64::MIN <= 5 * seed,
            5 * (seed + width - 1) + tick <= i64::MAX,
            r@.len() == x,
            forall|k: int| 0 <= k < x ==> #[trigger] r@[k] == spark_at(tick as int, k + seed),
        decreases width - x,
    {
        let col = x + seed;
        let phase = (col * 5 + t).checked_rem_euclid(29).unwrap();
        let cell = if phase < 3 {
            let k = (col + t3).checked_rem_euclid(4).unwrap();
            let glyph = if k == 0 {
                '·'
            } else if k == 2 {
                '✧'
            } else {
                '✦'
            };
            Spark::Glyph { glyph, bright: phase == 1 }
        } else {
            Spark::Blank
        };
        r.push(cell);
        x = x + 1;
    }
    r
}

} // verus!
