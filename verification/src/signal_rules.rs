//! Name-level rules of the MediaPipe post-process: which motion signals flip
//! sign when the output is mirrored, how a signal moves to the other side of
//! the body, what a lost tracking signal falls back to, and how blendshape
//! names are read out of their fixed-size buffers.
use vstd::prelude::*;

use crate::text::{
    ascii_lower, chars_eq_str, chars_of, ends_with, has_prefix, has_suffix, lower_chars, owned, string_of, trim, trim_chars,
};

verus! {

/// A side of the body.
#[derive(Clone, Copy, Debug, PartialEq, Eq, Structural)]
pub enum HandSide {
    Left,
    Right,
}

impl HandSide {
    pub open spec fn spec_prefix(self) -> Seq<char> {
        match self {
            HandSide::Left => "left"@,
            HandSide::Right => "right"@,
        }
    }

    /// The prefix signal names of this side carry.
    pub fn prefix(self) -> (r: &'static str)
        ensures
            r@ == self.spec_prefix(),
    {
        match self {
            HandSide::Left => "left",
            HandSide::Right => "right",
        }
    }
}

/// What a part whose tracking is lost sends.
#[derive(Clone, Copy, Debug, PartialEq, Eq, Structural)]
pub enum LostSignalBehavior {
    /// Blend toward the rest pose.
    RestPose,
    /// Keep the last pose for a while.
    Hold,
    /// Send nothing.
    Drop,
}

/// The behavior a name selects, trimmed and without regard to ASCII case:
/// `hold`; `drop`, `send-none` or `none`; anything else the rest pose.
pub open spec fn lost_signal_behavior_of(value: Seq<char>) -> LostSignalBehavior {
    let k = ascii_lower(trim(value));
    if k == "hold"@ {
        LostSignalBehavior::Hold
    } else if k == "drop"@ || k == "send-none"@ || k == "none"@ {
        LostSignalBehavior::Drop
    } else {
        LostSignalBehavior::RestPose
    }
}

/// The behavior `value` names.
pub fn lost_signal_behavior(value: &str) -> (r: LostSignalBehavior)
    ensures
        r == lost_signal_behavior_of(value@),
{
    let v = chars_of(value);
    let t = trim_chars(&v);
    let k = lower_chars(&t);
    if chars_eq_str(&k, "hold") {
        LostSignalBehavior::Hold
    } else if chars_eq_str(&k, "drop") || chars_eq_str(&k, "send-none") || chars_eq_str(&k, "none") {
        LostSignalBehavior::Drop
    } else {
        LostSignalBehavior::RestPose
    }
}

impl LostSignalBehavior {
    pub open spec fn spec_name(self) -> Seq<char> {
        match self {
            LostSignalBehavior::RestPose => "rest-pose"@,
            LostSignalBehavior::Hold => "hold"@,
            LostSignalBehavior::Drop => "drop"@,
        }
    }
}

/// The canonical name of the behavior `value` names.
pub fn lost_signal_behavior_name(value: &str) -> (r: &'static str)
    ensures
        r@ == lost_signal_behavior_of(value@).spec_name(),
{
    match lost_signal_behavior(value) {
        LostSignalBehavior::RestPose => "rest-pose",
        LostSignalBehavior::Hold => "hold",
        LostSignalBehavior::Drop => "drop",
    }
}

/// `value`, unless it is blank: then `fallback`.
pub open spec fn non_empty_or_spec(value: Seq<char>, fallback: Seq<char>) -> Seq<char> {
    if trim(value).len() == 0 {
        fallback
    } else {
        value
    }
}

/// `value`, unless it is blank: then `fallback`.
pub fn non_empty_or<'a>(value: &'a str, fallback: &'a str) -> (r: &'a str)
    ensures
        r@ == non_empty_or_spec(value@, fallback@),
{
    let v = chars_of(value);
    let t = trim_chars(&v);
    if t.len() == 0 {
        fallback
    } else {
        value
    }
}

/// The parts whose lost-signal behavior a profile sets apart.
#[derive(Clone, Copy, Debug, PartialEq, Eq, Structural)]
pub enum LostSignalPart {
    Head,
    Hands,
    Arms,
}

/// The lost-signal behavior names of the post-process rules.
pub struct LostSignalBehaviorNames {
    pub all: String,
    pub head: String,
    pub hands: String,
    pub arms: String,
}

/// The behavior name that applies to a part: its own, unless blank, else the
/// one for all parts.
pub open spec fn part_behavior_of(names: LostSignalBehaviorNames, part: LostSignalPart) -> Seq<char> {
    match part {
        LostSignalPart::Head => non_empty_or_spec(names.head@, names.all@),
        LostSignalPart::Hands => non_empty_or_spec(names.hands@, names.all@),
        LostSignalPart::Arms => non_empty_or_spec(names.arms@, names.all@),
    }
}

/// The behavior name that applies to a part.
pub fn lost_signal_part_behavior(names: &LostSignalBehaviorNames, part: LostSignalPart) -> (r: &str)
    ensures
        r@ == part_behavior_of(*names, part),
{
    match part {
        LostSignalPart::Head => non_empty_or(names.head.as_str(), names.all.as_str()),
        LostSignalPart::Hands => non_empty_or(names.hands.as_str(), names.all.as_str()),
        LostSignalPart::Arms => non_empty_or(names.arms.as_str(), names.all.as_str()),
    }
}

/// The bone-name prefix of a finger; empty for a name that is no finger.
pub open spec fn finger_rest_prefix_of(finger: Seq<char>) -> Seq<char> {
    if finger == "thumb"@ {
        "Thumb"@
    } else if finger == "index"@ {
        "Index"@
    } else if finger == "middle"@ {
        "Middle"@
    } else if finger == "ring"@ {
        "Ring"@
    } else if finger == "little"@ {
        "Little"@
    } else {
        ""@
    }
}

/// The bone-name prefix of a finger.
pub fn typed_finger_rest_prefix(finger: &str) -> (r: &'static str)
    ensures
        r@ == finger_rest_prefix_of(finger@),
{
    let f = chars_of(finger);
    if chars_eq_str(&f, "thumb") {
        "Thumb"
    } else if chars_eq_str(&f, "index") {
        "Index"
    } else if chars_eq_str(&f, "middle") {
        "Middle"
    } else if chars_eq_str(&f, "ring") {
        "Ring"
    } else if chars_eq_str(&f, "little") {
        "Little"
    } else {
        ""
    }
}

/// Whether a signal flips sign between the tracker's and the VMC coordinate
/// frame: yaw angles and the horizontal components of the limbs.
pub open spec fn flips_in_vmc_frame(name: Seq<char>) -> bool {
    ||| name == "head.yaw"@
    ||| has_suffix(name, ".yaw"@)
    ||| has_suffix(name, ".wrist.x"@)
    ||| has_suffix(name, ".shoulder.x"@)
    ||| has_suffix(name, ".elbow.x"@)
    ||| has_suffix(name, ".hip.x"@)
    ||| has_suffix(name, ".knee.x"@)
    ||| has_suffix(name, ".ankle.x"@)
    ||| has_suffix(name, ".heel.x"@)
    ||| has_suffix(name, ".index.x"@)
    ||| has_suffix(name, ".palm.forward.x"@)
    ||| has_suffix(name, ".palm.across.x"@)
    ||| has_suffix(name, ".palm.normal.y"@)
    ||| has_suffix(name, ".palm.normal.z"@)
    ||| has_suffix(name, ".upper.angle"@)
    ||| has_suffix(name, ".lower.angle"@)
}

/// Whether a signal flips sign between the tracker's and the VMC coordinate frame.
pub fn should_flip_vmc_coordinate_signal(name: &str) -> (r: bool)
    ensures
        r == flips_in_vmc_frame(name@),
{
    let n = chars_of(name);
    chars_eq_str(&n, "head.yaw") || ends_with(&n, ".yaw") || ends_with(&n, ".wrist.x") || ends_with(
        &n,
        ".shoulder.x",
    ) || ends_with(&n, ".elbow.x") || ends_with(&n, ".hip.x") || ends_with(&n, ".knee.x") || ends_with(
        &n,
        ".ankle.x",
    ) || ends_with(&n, ".heel.x") || ends_with(&n, ".index.x") || ends_with(&n, ".palm.forward.x")
        || ends_with(&n, ".palm.across.x") || ends_with(&n, ".palm.normal.y") || ends_with(
        &n,
        ".palm.normal.z",
    ) || ends_with(&n, ".upper.angle") || ends_with(&n, ".lower.angle")
}

/// Whether a signal flips sign when the user mirrors the output
/// horizontally: those that flip between frames, and the rolls of the head,
/// palms and wrists.
pub open spec fn flips_horizontally(name: Seq<char>) -> bool {
    flips_in_vmc_frame(name) || name == "head.roll"@ || has_suffix(name, ".palm.roll"@) || has_suffix(
        name,
        ".wrist.roll"@,
    )
}

/// Whether a signal flips sign when the user mirrors the output horizontally.
pub fn should_flip_user_horizontal_signal(name: &str) -> (r: bool)
    ensures
        r == flips_horizontally(name@),
{
    let n = chars_of(name);
    should_flip_vmc_coordinate_signal(name) || chars_eq_str(&n, "head.roll") || ends_with(&n, ".palm.roll")
        || ends_with(&n, ".wrist.roll")
}

/// Whether `p` occurs in `s`.
pub open spec fn contains_seq(s: Seq<char>, p: Seq<char>) -> bool {
    exists|i: int| 0 <= i && i + p.len() <= s.len() && #[trigger] s.subrange(i, i + p.len()) == p
}

/// `s` with every occurrence of `from` replaced by `to`, scanning from the
/// left without overlaps, as `str::replace` replaces.
pub open spec fn replace_all(s: Seq<char>, from: Seq<char>, to: Seq<char>) -> Seq<char>
    decreases s.len(),
{
    if s.len() == 0 || from.len() == 0 {
        s
    } else if has_prefix(s, from) {
        to + replace_all(s.skip(from.len() as int), from, to)
    } else {
        seq![s[0]] + replace_all(s.skip(1), from, to)
    }
}

/// Whether `p` occurs in `v` at `i`.
fn matches_at(v: &Vec<char>, i: usize, p: &Vec<char>) -> (r: bool)
    requires
        i <= v.len(),
    ensures
        r == has_prefix(v@.skip(i as int), p@),
{
    if p.len() > v.len() - i {
        return false;
    }
    let mut j: usize = 0;
    while j < p.len()
        invariant
            i + p.len() <= v.len(),
            j <= p.len(),
            forall|k: int| 0 <= k < j ==> v@[i + k] == p@[k],
        decreases p.len() - j,
    {
        if v[i + j] != p[j] {
            assert(v@.skip(i as int).subrange(0, p.len() as int)[j as int] != p@[j as int]);
            return false;
        }
        j = j + 1;
    }
    assert(v@.skip(i as int).subrange(0, p.len() as int) =~= p@);
    true
}

/// Whether `p` occurs in `v`.
fn contains_chars(v: &Vec<char>, p: &Vec<char>) -> (r: bool)
    ensures
        r == contains_seq(v@, p@),
{
    if p.len() > v.len() {
        return false;
    }
    let last: usize = v.len() - p.len();
    let mut i: usize = 0;
    while i < last
        invariant
            i <= last,
            last + p.len() == v.len(),
            forall|k: int| 0 <= k < i ==> #[trigger] v@.subrange(k, k + p.len()) != p@,
        decreases last - i,
    {
        assert(v@.subrange(i as int, i + p.len()) =~= v@.skip(i as int).subrange(0, p.len() as int));
        if matches_at(v, i, p) {
            return true;
        }
        i = i + 1;
    }
    assert(v@.subrange(last as int, last + p.len()) =~= v@.skip(last as int).subrange(0, p.len() as int));
    if matches_at(v, last, p) {
        return true;
    }
    assert forall|k: int| 0 <= k && k + p.len() <= v.len() implies #[trigger] v@.subrange(k, k + p.len()) != p@ by {
        assert(k <= last);
    }
    false
}

/// `v` with every occurrence of `from` replaced by `to`.
fn replace_all_chars(v: &Vec<char>, from: &Vec<char>, to: &Vec<char>) -> (r: Vec<char>)
    requires
        from.len() > 0,
    ensures
        r@ == replace_all(v@, from@, to@),
{
    let mut out: Vec<char> = Vec::new();
    let mut i: usize = 0;
    assert(v@.skip(0) =~= v@);
    while i < v.len()
        invariant
            i <= v.len(),
            from.len() > 0,
            out@ + replace_all(v@.skip(i as int), from@, to@) == replace_all(v@, from@, to@),
        decreases v.len() - i,
    {
        let ghost rest = v@.skip(i as int);
        if matches_at(v, i, from) {
            let mut j: usize = 0;
            let ghost before = out@;
            while j < to.len()
                invariant
                    j <= to.len(),
                    out@ == before + to@.take(j as int),
                decreases to.len() - j,
            {
                out.push(to[j]);
                assert(to@.take(j as int + 1) =~= to@.take(j as int).push(to@[j as int]));
                j = j + 1;
            }
            assert(to@.take(to.len() as int) =~= to@);
            assert(rest.skip(from.len() as int) =~= v@.skip(i + from.len()));
            assert(out@ + replace_all(v@.skip(i + from.len()), from@, to@) =~= before + replace_all(rest, from@, to@));
            i = i + from.len();
        } else {
            let ghost before = out@;
            out.push(v[i]);
            assert(rest.skip(1) =~= v@.skip(i + 1));
            assert(out@ + replace_all(v@.skip(i + 1), from@, to@) =~= before + replace_all(rest, from@, to@));
            i = i + 1;
        }
    }
    assert(v@.skip(i as int).len() == 0);
    assert(out@ + v@.skip(i as int) =~= out@);
    out
}

/// The name of a signal moved to the other side of the body: `.left.`
/// becomes `.right.` throughout, else `.right.` becomes `.left.`.
pub open spec fn swapped_side_name(name: Seq<char>) -> Seq<char> {
    if contains_seq(name, ".left."@) {
        replace_all(name, ".left."@, ".right."@)
    } else if contains_seq(name, ".right."@) {
        replace_all(name, ".right."@, ".left."@)
    } else {
        name
    }
}

/// The name of a signal moved to the other side of the body.
pub fn swap_signal_side(name: &str) -> (r: String)
    ensures
        r@ == swapped_side_name(name@),
{
    let n = chars_of(name);
    let left = chars_of(".left.");
    let right = chars_of(".right.");
    proof {
        reveal_strlit(".left.");
        reveal_strlit(".right.");
    }
    if contains_chars(&n, &left) {
        string_of(&replace_all_chars(&n, &left, &right))
    } else if contains_chars(&n, &right) {
        string_of(&replace_all_chars(&n, &right, &left))
    } else {
        owned(name)
    }
}

/// What `String::from_utf8_lossy` makes of `bytes`.
pub uninterp spec fn lossy_utf8(bytes: Seq<u8>) -> Seq<char>;

/// The characters of ASCII bytes.
pub open spec fn ascii_chars(bytes: Seq<u8>) -> Seq<char> {
    Seq::new(bytes.len(), |i: int| bytes[i] as char)
}

/// `String::from_utf8_lossy`: decodes UTF-8, with U+FFFD for each invalid
/// sequence. Claimed: the result is a function of the bytes alone, and bytes
/// that are all ASCII decode to the characters with their codes.
#[verifier::external_body]
fn from_utf8_lossy(bytes: &[u8]) -> (r: String)
    ensures
        r@ == lossy_utf8(bytes@),
        (forall|i: int| 0 <= i < bytes@.len() ==> bytes@[i] < 0x80) ==> r@ == ascii_chars(bytes@),
{
    String::from_utf8_lossy(bytes).into_owned()
}

/// The length of the name in a NUL-padded buffer: the bytes before the
/// first NUL, all of them where there is none.
pub open spec fn nul_terminated_len(bytes: Seq<u8>) -> nat
    decreases bytes.len(),
{
    if bytes.len() == 0 {
        0
    } else if bytes[0] == 0 {
        0
    } else {
        1 + nul_terminated_len(bytes.skip(1))
    }
}

proof fn lemma_nul_terminated_len(bytes: Seq<u8>, i: int)
    requires
        0 <= i <= bytes.len(),
        forall|j: int| 0 <= j < i ==> bytes[j] != 0,
        i == bytes.len() || bytes[i] == 0,
    ensures
        nul_terminated_len(bytes) == i,
    decreases i,
{
    if i > 0 {
        assert forall|j: int| 0 <= j < i - 1 implies bytes.skip(1)[j] != 0 by {
            assert(bytes.skip(1)[j] == bytes[j + 1]);
        }
        lemma_nul_terminated_len(bytes.skip(1), i - 1);
    }
}

/// The blendshape name in a NUL-padded buffer, decoded as `from_utf8_lossy` does.
pub fn blendshape_name(bytes: [u8; 64]) -> (r: String)
    ensures
        r@ == lossy_utf8(bytes@.take(nul_terminated_len(bytes@) as int)),
{
    let mut len: usize = 0;
    while len < 64 && bytes[len] != 0
        invariant
            len <= 64,
            bytes@.len() == 64,
            forall|j: int| 0 <= j < len ==> bytes@[j] != 0,
        decreases 64 - len,
    {
        len = len + 1;
    }
    proof {
        lemma_nul_terminated_len(bytes@, len as int);
    }
    let mut name: Vec<u8> = Vec::new();
    let mut i: usize = 0;
    while i < len
        invariant
            i <= len <= 64,
            bytes@.len() == 64,
            name@ == bytes@.take(i as int),
        decreases len - i,
    {
        name.push(bytes[i]);
        assert(bytes@.take(i as int + 1) =~= bytes@.take(i as int).push(bytes@[i as int]));
        i = i + 1;
    }
    from_utf8_lossy(name.as_slice())
}

} // verus!
