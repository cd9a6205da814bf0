//! Where an interface preview build opens: a page, and optionally a running
//! hold, read from a comma-separated list such as `agents,holding-1h`.

use vstd::prelude::*;
use vstd::string::*;

use crate::pages::Page;
use crate::text::same_text;

verus! {

/// Whether a character has the Unicode White_Space property, which is what
/// `char::is_whitespace` and `str::trim` go by: the controls from tab to
/// carriage return, the space, next line, the no-break spaces, the Ogham
/// space mark, the typographic spaces from en quad to hair space, the line
/// and paragraph separators, the medium mathematical space and the
/// ideographic space.
pub open spec fn white(c: char) -> bool {
    let u = c as u32;
    ||| 0x09 <= u <= 0x0d
    ||| u == 0x20
    ||| u == 0x85
    ||| u == 0xa0
    ||| u == 0x1680
    ||| 0x2000 <= u <= 0x200a
    ||| u == 0x2028
    ||| u == 0x2029
    ||| u == 0x202f
    ||| u == 0x205f
    ||| u == 0x3000
}

/// Whether `c` is white space.
fn is_white(c: char) -> (w: bool)
    ensures
        w == white(c),
{
    let u: u32 = c as u32;
    (0x09 <= u && u <= 0x0d) || u == 0x20 || u == 0x85 || u == 0xa0 || u == 0x1680 || (0x2000
        <= u && u <= 0x200a) || u == 0x2028 || u == 0x2029 || u == 0x202f || u == 0x205f || u
        == 0x3000
}

/// A string with its leading white space removed.
pub open spec fn trim_start_spec(s: Seq<char>) -> Seq<char>
    decreases s.len(),
{
    if s.len() > 0 && white(s[0]) {
        trim_start_spec(s.subrange(1, s.len() as int))
    } else {
        s
    }
}

/// A string with its trailing white space removed.
pub open spec fn trim_end_spec(s: Seq<char>) -> Seq<char>
    decreases s.len(),
{
    if s.len() > 0 && white(s[s.len() - 1]) {
        trim_end_spec(s.subrange(0, s.len() - 1))
    } else {
        s
    }
}

/// A string with white space removed from both ends, as `str::trim` does.
pub open spec fn trimmed(s: Seq<char>) -> Seq<char> {
    trim_end_spec(trim_start_spec(s))
}

/// A hold the preview starts with.
#[derive(Debug, Clone, Copy, PartialEq, Eq, Structural)]
pub enum PreviewHold {
    /// `holding`: an unlimited hold.
    Unlimited,
    /// `holding-1h`: a one-hour hold.
    OneHour,
}

#[derive(Debug, Clone, Copy, PartialEq, Eq, Structural)]
pub struct Scene {
    pub page: Option<Page>,
    pub hold: Option<PreviewHold>,
}

pub open spec fn empty_scene() -> Scene {
    Scene { page: None, hold: None }
}

/// One part of the list, applied to the scene so far; a later part wins, and
/// anything unknown is ignored.
pub open spec fn apply_part(scene: Scene, part: Seq<char>) -> Scene {
    if part == "agents"@ {
        Scene { page: Some(Page::Agents), ..scene }
    } else if part == "settings"@ {
        Scene { page: Some(Page::Settings), ..scene }
    } else if part == "holding"@ {
        Scene { hold: Some(PreviewHold::Unlimited), ..scene }
    } else if part == "holding-1h"@ {
        Scene { hold: Some(PreviewHold::OneHour), ..scene }
    } else {
        scene
    }
}

/// Reads the list left to right: the scene built from the parts completed so
/// far, and the part still being read.
pub open spec fn scan(s: Seq<char>) -> (Scene, Seq<char>)
    decreases s.len(),
{
    if s.len() == 0 {
        (empty_scene(), Seq::empty())
    } else {
        let (scene, current) = scan(s.drop_last());
        if s.last() == ',' {
            (apply_part(scene, trimmed(current)), Seq::empty())
        } else {
            (scene, current.push(s.last()))
        }
    }
}

/// The scene a preview build opens in. A build that is not a preview opens
/// plainly, whatever the list says.
pub open spec fn scene_spec(raw: Seq<char>, active: bool) -> Scene {
    if !active {
        empty_scene()
    } else {
        let (scene, current) = scan(raw);
        apply_part(scene, trimmed(current))
    }
}

/// Only a preview build follows the list; any other opens plainly. An
/// unknown part changes nothing.
pub proof fn lemma_only_previews_follow_the_list(raw: Seq<char>, scene: Scene, part: Seq<char>)
    ensures
        scene_spec(raw, false) == empty_scene(),
        part != "agents"@ && part != "settings"@ && part != "holding"@ && part != "holding-1h"@
            ==> apply_part(scene, part) == scene,
{
}

/// The bounds of `raw[start..end]` with white space trimmed from both ends.
fn trim_bounds(raw: &str, start: usize, end: usize) -> (bounds: (usize, usize))
    requires
        start <= end <= raw@.len(),
    ensures
        start <= bounds.0 <= bounds.1 <= end,
        raw@.subrange(bounds.0 as int, bounds.1 as int) == trimmed(
            raw@.subrange(start as int, end as int),
        ),
{
    let mut a = start;
    while a < end && is_white(raw.get_char(a))
        invariant
            start <= a <= end <= raw@.len(),
            trim_start_spec(raw@.subrange(start as int, end as int)) == trim_start_spec(
                raw@.subrange(a as int, end as int),
            ),
        decreases end - a,
    {
        assert(raw@.subrange(a as int, end as int).subrange(1, (end - a) as int) =~= raw@.subrange(
            a + 1,
            end as int,
        ));
        a = a + 1;
    }
    assert(trim_start_spec(raw@.subrange(a as int, end as int)) == raw@.subrange(
        a as int,
        end as int,
    ));
    let mut b = end;
    assert(raw@.subrange(a as int, end as int) =~= raw@.subrange(a as int, b as int));
    while b > a && is_white(raw.get_char(b - 1))
        invariant
            start <= a <= b <= end <= raw@.len(),
            trim_end_spec(raw@.subrange(a as int, end as int)) == trim_end_spec(
                raw@.subrange(a as int, b as int),
            ),
        decreases b - a,
    {
        assert(raw@.subrange(a as int, b as int).subrange(0, (b - a - 1) as int) =~= raw@.subrange(
            a as int,
            b - 1,
        ));
        b = b - 1;
    }
    (a, b)
}

/// Applies the part `raw[start..end]`, trimmed, to the scene.
fn apply_part_of(scene: Scene, raw: &str, start: usize, end: usize) -> (next: Scene)
    requires
        start <= end <= raw@.len(),
    ensures
        next == apply_part(scene, trimmed(raw@.subrange(start as int, end as int))),
{
    let (a, b) = trim_bounds(raw, start, end);
    let part = raw.substring_char(a, b);
    if same_text(part, "agents") {
        Scene { page: Some(Page::Agents), ..scene }
    } else if same_text(part, "settings") {
        Scene { page: Some(Page::Settings), ..scene }
    } else if same_text(part, "holding") {
        Scene { hold: Some(PreviewHold::Unlimited), ..scene }
    } else if same_text(part, "holding-1h") {
        Scene { hold: Some(PreviewHold::OneHour), ..scene }
    } else {
        scene
    }
}

/// Where the window opens, from the preview list `raw`; `active` is whether
/// this is a preview build, which alone may follow the list.
pub fn scene(raw: &str, active: bool) -> (opened: Scene)
    ensures
        opened == scene_spec(raw@, active),
{
    let mut current = Scene { page: None, hold: None };
    if !active {
        return current;
    }
    let n = raw.unicode_len();
    let mut start: usize = 0;
    let mut i: usize = 0;
    while i < n
        invariant
            n == raw@.len(),
            start <= i <= n,
            scan(raw@.take(i as int)) == (current, raw@.subrange(start as int, i as int)),
        decreases n - i,
    {
        assert(raw@.take(i + 1).drop_last() =~= raw@.take(i as int));
        assert(raw@.take(i + 1).last() == raw@[i as int]);
        if raw.get_char(i) == ',' {
            current = apply_part_of(current, raw, start, i);
            start = i + 1;
            assert(raw@.subrange(start as int, (i + 1) as int) =~= Seq::<char>::empty());
        } else {
            assert(raw@.subrange(start as int, i as int).push(raw@[i as int]) =~= raw@.subrange(
                start as int,
                i + 1,
            ));
        }
        i = i + 1;
    }
    assert(raw@.take(n as int) =~= raw@);
    apply_part_of(current, raw, start, n)
}

} // verus!
