//! Editing the profile document: creating, duplicating, deleting, ordering
//! and selecting profiles, and merging a profile back from a capturer.
use vstd::prelude::*;

use crate::float_bits::F32Bits;
use crate::profile_schema::{
    profile_ids, profile_names, DocumentProfile, DocumentSource, ProfileDocument, ProfileFacePoseModelSettings,
    ProfileModifierSettings, ProfileRuntimeSettings,
};
use crate::runtime_choices::NeutralCalibrationPose;
use crate::text::{
    chars_of, is_ascii_alphanumeric, lower_char, owned, seq_eq, string_of, trim, trim_chars,
};
use crate::unique_name::{first_free, is_first_free};

verus! {

broadcast use vstd::seq_lib::group_to_multiset_ensures;

/// What one name character becomes in an id: letters and digits lowered,
/// space, `-` and `_` as `-`, anything else dropped.
pub open spec fn slug_char(c: char) -> Seq<char> {
    if is_ascii_alphanumeric(c) {
        seq![lower_char(c)]
    } else if c == ' ' || c == '-' || c == '_' {
        seq!['-']
    } else {
        Seq::empty()
    }
}

/// The id characters of a name.
pub open spec fn slug(s: Seq<char>) -> Seq<char>
    decreases s.len(),
{
    if s.len() == 0 {
        Seq::empty()
    } else {
        slug(s.drop_last()) + slug_char(s.last())
    }
}

pub open spec fn trim_dash_start(s: Seq<char>) -> Seq<char>
    decreases s.len(),
{
    if s.len() > 0 && s[0] == '-' {
        trim_dash_start(s.drop_first())
    } else {
        s
    }
}

pub open spec fn trim_dash_end(s: Seq<char>) -> Seq<char>
    decreases s.len(),
{
    if s.len() > 0 && s.last() == '-' {
        trim_dash_end(s.drop_last())
    } else {
        s
    }
}

/// `s` without leading and trailing `-`.
pub open spec fn trim_dashes(s: Seq<char>) -> Seq<char> {
    trim_dash_end(trim_dash_start(s))
}

/// The id a name starts from: its slug without outer dashes, or `profile`.
pub open spec fn id_base(name: Seq<char>) -> Seq<char> {
    let t = trim_dashes(slug(name));
    if t.len() == 0 {
        "profile"@
    } else {
        t
    }
}

/// The name a base starts from: the base trimmed, or `Profile`.
pub open spec fn name_base(base: Seq<char>) -> Seq<char> {
    let t = trim(base);
    if t.len() == 0 {
        "Profile"@
    } else {
        t
    }
}

fn slug_of(v: &Vec<char>) -> (r: Vec<char>)
    ensures
        r@ == slug(v@),
{
    let mut out: Vec<char> = Vec::new();
    let mut i: usize = 0;
    while i < v.len()
        invariant
            i <= v.len(),
            out@ == slug(v@.take(i as int)),
        decreases v.len() - i,
    {
        let c = v[i];
        assert(v@.take(i as int + 1).drop_last() =~= v@.take(i as int));
        if ('a' <= c && c <= 'z') || ('0' <= c && c <= '9') {
            out.push(c);
        } else if 'A' <= c && c <= 'Z' {
            let u: u32 = (c as u32) + 32;
            let b: u8 = u as u8;
            out.push(b as char);
        } else if c == ' ' || c == '-' || c == '_' {
            out.push('-');
        }
        assert(out@ =~= slug(v@.take(i as int + 1)));
        i = i + 1;
    }
    assert(v@.take(v.len() as int) =~= v@);
    out
}

fn trim_dashes_of(v: &Vec<char>) -> (r: Vec<char>)
    ensures
        r@ == trim_dashes(v@),
{
    let n: usize = v.len();
    let mut lo: usize = 0;
    assert(v@.subrange(0, n as int) =~= v@);
    while lo < n && v[lo] == '-'
        invariant
            lo <= n,
            n == v.len(),
            trim_dash_start(v@) == trim_dash_start(v@.subrange(lo as int, n as int)),
        decreases n - lo,
    {
        assert(v@.subrange(lo as int, n as int).drop_first() =~= v@.subrange(lo + 1, n as int));
        lo = lo + 1;
    }
    let ghost rest = v@.subrange(lo as int, n as int);
    let mut hi: usize = n;
    assert(rest.subrange(0, rest.len() as int) =~= rest);
    while hi > lo && v[hi - 1] == '-'
        invariant
            lo <= hi <= n,
            n == v.len(),
            rest == v@.subrange(lo as int, n as int),
            trim_dash_end(rest) == trim_dash_end(rest.subrange(0, hi - lo)),
        decreases hi,
    {
        assert(rest.subrange(0, hi - lo).drop_last() =~= rest.subrange(0, hi - lo - 1));
        hi = hi - 1;
    }
    let r = crate::text::slice_chars(v, lo, hi);
    assert(r@ =~= rest.subrange(0, hi - lo));
    r
}

fn ids_of(profiles: &Vec<DocumentProfile>) -> (r: Vec<Vec<char>>)
    ensures
        r@.map_values(|v: Vec<char>| v@) == profile_ids(profiles@),
        r@.len() == profiles@.len(),
{
    let mut out: Vec<Vec<char>> = Vec::new();
    let mut i: usize = 0;
    while i < profiles.len()
        invariant
            i <= profiles.len(),
            out@.map_values(|v: Vec<char>| v@) == profile_ids(profiles@).take(i as int),
            out@.len() == i,
        decreases profiles.len() - i,
    {
        let ghost before = out@;
        out.push(chars_of(profiles[i].id.as_str()));
        assert(out@.map_values(|v: Vec<char>| v@) =~= profile_ids(profiles@).take(i as int + 1));
        i = i + 1;
    }
    assert(profile_ids(profiles@).take(profiles@.len() as int) =~= profile_ids(profiles@));
    out
}

fn names_of(profiles: &Vec<DocumentProfile>) -> (r: Vec<Vec<char>>)
    ensures
        r@.map_values(|v: Vec<char>| v@) == profile_names(profiles@),
        r@.len() == profiles@.len(),
{
    let mut out: Vec<Vec<char>> = Vec::new();
    let mut i: usize = 0;
    while i < profiles.len()
        invariant
            i <= profiles.len(),
            out@.map_values(|v: Vec<char>| v@) == profile_names(profiles@).take(i as int),
            out@.len() == i,
        decreases profiles.len() - i,
    {
        out.push(chars_of(profiles[i].name.as_str()));
        assert(out@.map_values(|v: Vec<char>| v@) =~= profile_names(profiles@).take(
            i as int + 1,
        ));
        i = i + 1;
    }
    assert(profile_names(profiles@).take(profiles@.len() as int) =~= profile_names(profiles@));
    out
}

/// A fresh id for a profile named `name`: the slug of the name, or `profile`,
/// then with `-2`, `-3`, ... until no profile has it.
pub fn next_profile_id(doc: &ProfileDocument, name: &str) -> (r: String)
    requires
        doc.profiles@.len() < 0xffff_0000,
    ensures
        is_first_free(id_base(name@), '-', profile_ids(doc.profiles@), r@),
{
    let v = chars_of(name);
    let s = slug_of(&v);
    let t = trim_dashes_of(&s);
    let base = if t.len() == 0 {
        chars_of("profile")
    } else {
        t
    };
    let taken = ids_of(&doc.profiles);
    let r = first_free(&base, '-', &taken);
    string_of(&r)
}

/// A fresh name from `base`: the base trimmed, or `Profile`, then with ` 2`,
/// ` 3`, ... until no profile has it.
pub fn next_profile_name(doc: &ProfileDocument, base: &str) -> (r: String)
    requires
        doc.profiles@.len() < 0xffff_0000,
    ensures
        is_first_free(name_base(base@), ' ', profile_names(doc.profiles@), r@),
{
    let v = chars_of(base);
    let t = trim_chars(&v);
    let b = if t.len() == 0 {
        chars_of("Profile")
    } else {
        t
    };
    let taken = names_of(&doc.profiles);
    let r = first_free(&b, ' ', &taken);
    string_of(&r)
}

/// Law: a generated id is held by no profile of the document.
pub proof fn law_next_profile_id_is_fresh(doc: ProfileDocument, name: Seq<char>, id: Seq<char>)
    requires
        is_first_free(id_base(name), '-', profile_ids(doc.profiles@), id),
    ensures
        !profile_ids(doc.profiles@).contains(id),
{
}

/// The index of the first profile with the id, or -1.
pub open spec fn position(s: Seq<DocumentProfile>, id: Seq<char>) -> int
    decreases s.len(),
{
    if s.len() == 0 {
        -1
    } else if s[0].id@ == id {
        0
    } else {
        let p = position(s.drop_first(), id);
        if p < 0 {
            -1
        } else {
            p + 1
        }
    }
}

proof fn lemma_position(s: Seq<DocumentProfile>, id: Seq<char>, i: int)
    requires
        0 <= i <= s.len(),
        forall|j: int| 0 <= j < i ==> s[j].id@ != id,
        i == s.len() || s[i].id@ == id,
    ensures
        position(s, id) == (if i == s.len() {
            -1
        } else {
            i
        }),
    decreases i,
{
    if i > 0 {
        lemma_position(s.drop_first(), id, i - 1);
    }
}

pub proof fn lemma_position_bounds(s: Seq<DocumentProfile>, id: Seq<char>)
    ensures
        -1 <= position(s, id) < s.len(),
        position(s, id) >= 0 ==> s[position(s, id)].id@ == id,
        position(s, id) < 0 ==> forall|j: int| 0 <= j < s.len() ==> s[j].id@ != id,
    decreases s.len(),
{
    if s.len() > 0 {
        lemma_position_bounds(s.drop_first(), id);
        if s[0].id@ != id {
            assert forall|j: int| 0 <= j < s.len() implies (position(s, id) < 0 ==> s[j].id@
                != id) by {
                if j > 0 {
                    assert(s[j] == s.drop_first()[j - 1]);
                }
            }
        }
    }
}

/// The index of the first profile whose id is `id`.
pub fn find_profile(profiles: &Vec<DocumentProfile>, id: &Vec<char>) -> (r: Option<usize>)
    ensures
        match r {
            Some(i) => i as int == position(profiles@, id@),
            None => position(profiles@, id@) == -1,
        },
{
    let mut i: usize = 0;
    while i < profiles.len()
        invariant
            i <= profiles.len(),
            forall|j: int| 0 <= j < i ==> profiles@[j].id@ != id@,
        decreases profiles.len() - i,
    {
        let pid = chars_of(profiles[i].id.as_str());
        if seq_eq(&pid, id) {
            proof {
                lemma_position(profiles@, id@, i as int);
            }
            return Some(i);
        }
        i = i + 1;
    }
    proof {
        lemma_position(profiles@, id@, i as int);
    }
    None
}

/// Why an edit of the document was refused.
#[derive(Clone, Debug, PartialEq, Eq)]
pub enum ProfileOpError {
    /// No profile has the id.
    NotFound { id: String },
    /// A capturer runs the profile, so it stays.
    InUse { id: String },
    /// The capturer's document lacks the profile.
    MissingFromCapturer { id: String },
    /// The user's document lacks the profile.
    MissingFromStore { id: String },
}

/// The runtime selection a new profile starts with: MediaPipe native into
/// Zenoh on `un-motion/frame`, VMC off, XNNPACK on two threads, the flow
/// limiter at one frame, every body part but legs and feet, and one-euro
/// smoothing with a confidence-adaptive cutoff.
pub fn new_profile_runtime_defaults() -> (r: ProfileRuntimeSettings)
    ensures
        r.engine matches Some(e) && e@ == "mediapipe-native"@,
        r.vmc_enabled == Some(false),
        r.zenoh_enabled == Some(true),
        r.zenoh_key_expr matches Some(k) && k@ == "un-motion/frame"@,
        r.zenoh_topic_mode matches Some(m) && m@ == "frame"@,
        r.zenoh_producer matches Some(p) && p@ == "un-motion-capturer"@,
        r.media_pipe_delegate matches Some(d) && d@ == "xnnpack"@,
        r.media_pipe_num_threads == Some(2u32),
        r.media_pipe_holistic_flow_limiter_enabled == Some(true),
        r.media_pipe_holistic_flow_limiter_max_in_flight == Some(1u32),
        r.media_pipe_holistic_flow_limiter_max_in_queue == Some(1u32),
        r.fps is None,
        r.vmc_target_addr is None,
        r.zenoh_stream_id is None,
        r.device is None,
        r.resolution is None,
        r.media_pipe_running_mode is None,
        r.media_pipe_holistic_enabled is None,
        r.vrc_osc_enabled is None,
        r.modifier matches Some(m) && {
            &&& m.head_enabled == Some(true)
            &&& m.face_enabled == Some(true)
            &&& m.hands_enabled == Some(true)
            &&& m.arms_ik_enabled == Some(true)
            &&& m.torso_enabled == Some(true)
            &&& m.legs_enabled == Some(false)
            &&& m.feet_enabled == Some(false)
            &&& m.torso_pitch_scale == Some(F32Bits(0x3f80_0000))
            &&& m.smoothing_ema_enabled == Some(false)
            &&& m.smoothing_ema_alpha == Some(F32Bits(0x3f33_3333))
            &&& m.smoothing_one_euro_enabled == Some(true)
            &&& m.smoothing_confidence_adaptive_cutoff == Some(true)
            &&& m.adaptive_min_cutoff_hz == Some(F32Bits(0x3f80_0000))
            &&& m.adaptive_beta == Some(F32Bits(0x3df5_c28f))
            &&& m.adaptive_derivative_cutoff_hz == Some(F32Bits(0x3f80_0000))
            &&& m.mirror_mode is None
            &&& m.smoothing_preset is None
            &&& m.neutral_calibration_enabled is None
            &&& m.face_pose_model is None
            &&& m.post_process_rules is None
        },
{
    let mut modifier = ProfileModifierSettings::empty();
    modifier.head_enabled = Some(true);
    modifier.face_enabled = Some(true);
    modifier.hands_enabled = Some(true);
    modifier.arms_ik_enabled = Some(true);
    modifier.torso_enabled = Some(true);
    modifier.legs_enabled = Some(false);
    modifier.feet_enabled = Some(false);
    modifier.torso_pitch_scale = Some(F32Bits(0x3f80_0000));
    modifier.smoothing_ema_enabled = Some(false);
    modifier.smoothing_ema_alpha = Some(F32Bits(0x3f33_3333));
    modifier.smoothing_one_euro_enabled = Some(true);
    modifier.smoothing_confidence_adaptive_cutoff = Some(true);
    modifier.adaptive_min_cutoff_hz = Some(F32Bits(0x3f80_0000));
    modifier.adaptive_beta = Some(F32Bits(0x3df5_c28f));
    modifier.adaptive_derivative_cutoff_hz = Some(F32Bits(0x3f80_0000));
    let mut r = ProfileRuntimeSettings::empty();
    r.engine = Some(owned("mediapipe-native"));
    r.vmc_enabled = Some(false);
    r.zenoh_enabled = Some(true);
    r.zenoh_key_expr = Some(owned("un-motion/frame"));
    r.zenoh_topic_mode = Some(owned("frame"));
    r.zenoh_producer = Some(owned("un-motion-capturer"));
    r.media_pipe_delegate = Some(owned("xnnpack"));
    r.media_pipe_num_threads = Some(2);
    r.media_pipe_holistic_flow_limiter_enabled = Some(true);
    r.media_pipe_holistic_flow_limiter_max_in_flight = Some(1);
    r.media_pipe_holistic_flow_limiter_max_in_queue = Some(1);
    r.modifier = Some(modifier);
    r
}

/// Adds a profile named `name` (trimmed, or `New Profile`) with a fresh id
/// and the new-profile runtime defaults, and selects it. Gives the new id.
pub fn create_profile(doc: &mut ProfileDocument, name: &str) -> (r: String)
    requires
        old(doc).profiles@.len() < 0xffff_0000,
    ensures
        ({
            let n = if trim(name@).len() == 0 {
                "New Profile"@
            } else {
                trim(name@)
            };
            &&& is_first_free(id_base(n), '-', profile_ids(old(doc).profiles@), r@)
            &&& final(doc).profiles@.len() == old(doc).profiles@.len() + 1
            &&& final(doc).profiles@.drop_last() == old(doc).profiles@
            &&& final(doc).profiles@.last().id@ == r@
            &&& final(doc).profiles@.last().name@ == n
            &&& final(doc).profiles@.last().created_at@ == Seq::<char>::empty()
            &&& final(doc).profiles@.last().note@ == Seq::<char>::empty()
            &&& final(doc).profiles@.last().group@ == Seq::<char>::empty()
            &&& final(doc).profiles@.last().icon_path is None
            &&& final(doc).profiles@.last().default_source_enabled
            &&& final(doc).profiles@.last().default_source_label@ == "Default"@
            &&& final(doc).profiles@.last().runtime_selection is Some
            &&& final(doc).profiles@.last().pipeline_components is None
            &&& final(doc).selected_profile_id@ == r@
            &&& final(doc).profile_sources == old(doc).profile_sources
        }),
{
    let v = chars_of(name);
    let t = trim_chars(&v);
    let name_chars = if t.len() == 0 {
        chars_of("New Profile")
    } else {
        t
    };
    let name = string_of(&name_chars);
    let id = next_profile_id(doc, name.as_str());
    let profile = DocumentProfile {
        id: id.clone(),
        name,
        created_at: String::new(),
        note: String::new(),
        icon_path: None,
        group: String::new(),
        default_source_enabled: true,
        default_source_label: owned("Default"),
        runtime_selection: Some(new_profile_runtime_defaults()),
        pipeline_components: None,
    };
    doc.profiles.push(profile);
    doc.selected_profile_id = id.clone();
    id
}

/// Adds a copy of the profile `id` under a fresh name (`<name> copy`, made
/// unique) and a fresh id from that name. Gives the new id.
pub fn duplicate_profile(doc: &mut ProfileDocument, id: &str) -> (r: Result<String, ProfileOpError>)
    requires
        old(doc).profiles@.len() < 0xffff_0000,
    ensures
        match r {
            Err(e) => {
                &&& position(old(doc).profiles@, id@) == -1
                &&& e matches ProfileOpError::NotFound { id: eid } && eid@ == id@
                &&& *final(doc) == *old(doc)
            },
            Ok(new_id) => {
                let p = position(old(doc).profiles@, id@);
                let original = old(doc).profiles@[p];
                let new_name = final(doc).profiles@.last().name@;
                &&& p >= 0
                &&& is_first_free(
                    name_base(original.name@ + " copy"@),
                    ' ',
                    profile_names(old(doc).profiles@),
                    new_name,
                )
                &&& is_first_free(id_base(new_name), '-', profile_ids(old(doc).profiles@), new_id@)
                &&& final(doc).profiles@.len() == old(doc).profiles@.len() + 1
                &&& final(doc).profiles@.drop_last() == old(doc).profiles@
                &&& final(doc).profiles@.last().eqv(DocumentProfile {
                    id: final(doc).profiles@.last().id,
                    name: final(doc).profiles@.last().name,
                    created_at: final(doc).profiles@.last().created_at,
                    ..original
                })
                &&& final(doc).profiles@.last().id@ == new_id@
                &&& final(doc).profiles@.last().created_at@ == Seq::<char>::empty()
                &&& final(doc).selected_profile_id == old(doc).selected_profile_id
                &&& final(doc).profile_sources == old(doc).profile_sources
            },
        },
{
    let key = chars_of(id);
    let found = find_profile(&doc.profiles, &key);
    let index = match found {
        None => {
            return Err(ProfileOpError::NotFound { id: owned(id) });
        },
        Some(i) => i,
    };
    proof {
        lemma_position_bounds(doc.profiles@, id@);
    }
    let original = doc.profiles[index].copy();
    let mut base = original.name.clone();
    base.append(" copy");
    let new_name = next_profile_name(doc, base.as_str());
    let new_id = next_profile_id(doc, new_name.as_str());
    let duplicated = DocumentProfile {
        id: new_id.clone(),
        name: new_name,
        created_at: String::new(),
        ..original
    };
    doc.profiles.push(duplicated);
    Ok(new_id)
}

/// The profiles whose id is not `id`, in order.
pub open spec fn without_profile(s: Seq<DocumentProfile>, id: Seq<char>) -> Seq<DocumentProfile>
    decreases s.len(),
{
    if s.len() == 0 {
        s
    } else if s.last().id@ == id {
        without_profile(s.drop_last(), id)
    } else {
        without_profile(s.drop_last(), id).push(s.last())
    }
}

/// The sources not bound to the profile `id`, in order.
pub open spec fn without_sources_of(s: Seq<DocumentSource>, id: Seq<char>) -> Seq<DocumentSource>
    decreases s.len(),
{
    if s.len() == 0 {
        s
    } else if s.last().profile_id@ == id {
        without_sources_of(s.drop_last(), id)
    } else {
        without_sources_of(s.drop_last(), id).push(s.last())
    }
}

/// The selection after deleting the profile `id` from `profiles`, leaving
/// `remaining`: the first remaining profile (or none) when the deleted one
/// was selected.
pub open spec fn selection_after_delete(selected: Seq<char>, id: Seq<char>, remaining: Seq<DocumentProfile>) -> Seq<char> {
    if selected == id {
        if remaining.len() > 0 {
            remaining[0].id@
        } else {
            Seq::<char>::empty()
        }
    } else {
        selected
    }
}

fn remove_profiles_with_id(profiles: Vec<DocumentProfile>, key: &Vec<char>) -> (r: Vec<DocumentProfile>)
    ensures
        r@ == without_profile(profiles@, key@),
{
    let ghost all = profiles@;
    let total: usize = profiles.len();
    let mut rest = profiles;
    let mut kept: Vec<DocumentProfile> = Vec::new();
    let mut done: usize = 0;
    while rest.len() > 0
        invariant
            done + rest@.len() == all.len(),
            all.len() == total,
            rest@ == all.subrange(done as int, all.len() as int),
            kept@ == without_profile(all.take(done as int), key@),
        decreases rest.len(),
    {
        let p = rest.remove(0);
        assert(all.take(done as int + 1).drop_last() =~= all.take(done as int));
        assert(all.take(done as int + 1).last() == p);
        let pid = chars_of(p.id.as_str());
        if !seq_eq(&pid, key) {
            kept.push(p);
        }
        assert(rest@ =~= all.subrange(done as int + 1, all.len() as int));
        done = done + 1;
    }
    assert(all.take(all.len() as int) =~= all);
    kept
}

fn remove_sources_of(sources: Vec<DocumentSource>, key: &Vec<char>) -> (r: Vec<DocumentSource>)
    ensures
        r@ == without_sources_of(sources@, key@),
{
    let ghost all = sources@;
    let total: usize = sources.len();
    let mut rest = sources;
    let mut kept: Vec<DocumentSource> = Vec::new();
    let mut done: usize = 0;
    while rest.len() > 0
        invariant
            done + rest@.len() == all.len(),
            all.len() == total,
            rest@ == all.subrange(done as int, all.len() as int),
            kept@ == without_sources_of(all.take(done as int), key@),
        decreases rest.len(),
    {
        let s = rest.remove(0);
        assert(all.take(done as int + 1).drop_last() =~= all.take(done as int));
        assert(all.take(done as int + 1).last() == s);
        let sid = chars_of(s.profile_id.as_str());
        if !seq_eq(&sid, key) {
            kept.push(s);
        }
        assert(rest@ =~= all.subrange(done as int + 1, all.len() as int));
        done = done + 1;
    }
    assert(all.take(all.len() as int) =~= all);
    kept
}

/// Deletes the profile `id` and the sources bound to it, and moves the
/// selection off it. Refused when no profile has the id, or when a running
/// capturer uses the profile (`in_use`); a refused request leaves the
/// document as it was.
pub fn delete_profile(doc: ProfileDocument, id: &str, in_use: bool) -> (r: Result<ProfileDocument, ProfileOpError>)
    ensures
        match r {
            Ok(d) => {
                &&& position(doc.profiles@, id@) >= 0
                &&& !in_use
                &&& d.profiles@ == without_profile(doc.profiles@, id@)
                &&& d.profile_sources@ == without_sources_of(doc.profile_sources@, id@)
                &&& d.selected_profile_id@ == selection_after_delete(
                    doc.selected_profile_id@,
                    id@,
                    without_profile(doc.profiles@, id@),
                )
                &&& d.next_profile_index == doc.next_profile_index
                &&& d.next_source_index == doc.next_source_index
            },
            Err(ProfileOpError::NotFound { id: eid }) => eid@ == id@ && position(doc.profiles@, id@)
                == -1,
            Err(ProfileOpError::InUse { id: eid }) => eid@ == id@ && position(doc.profiles@, id@)
                >= 0 && in_use,
            Err(_) => false,
        },
{
    let key = chars_of(id);
    if find_profile(&doc.profiles, &key).is_none() {
        return Err(ProfileOpError::NotFound { id: owned(id) });
    }
    if in_use {
        return Err(ProfileOpError::InUse { id: owned(id) });
    }
    let ProfileDocument {
        selected_profile_id,
        profiles,
        profile_sources,
        next_profile_index,
        next_source_index,
    } = doc;
    let profiles = remove_profiles_with_id(profiles, &key);
    let profile_sources = remove_sources_of(profile_sources, &key);
    let sel = chars_of(selected_profile_id.as_str());
    let selected_profile_id = if seq_eq(&sel, &key) {
        if profiles.len() > 0 {
            profiles[0].id.clone()
        } else {
            String::new()
        }
    } else {
        selected_profile_id
    };
    Ok(ProfileDocument {
        selected_profile_id,
        profiles,
        profile_sources,
        next_profile_index,
        next_source_index,
    })
}

/// The profiles and the leftovers after moving, for each of the first `n`
/// requested ids, the first leftover profile with that id to the end of the
/// ordered part.
pub open spec fn reorder_state(profiles: Seq<DocumentProfile>, ids: Seq<Seq<char>>, n: int) -> (
    Seq<DocumentProfile>,
    Seq<DocumentProfile>,
)
    decreases n,
{
    if n <= 0 {
        (Seq::empty(), profiles)
    } else {
        let (ordered, rest) = reorder_state(profiles, ids, n - 1);
        let p = position(rest, ids[n - 1]);
        if p >= 0 {
            (ordered.push(rest[p]), rest.remove(p))
        } else {
            (ordered, rest)
        }
    }
}

/// The profiles in the requested order: those named by `ids` first, in that
/// order, then the others in their old order. Unknown ids are skipped.
pub open spec fn reordered(profiles: Seq<DocumentProfile>, ids: Seq<Seq<char>>) -> Seq<DocumentProfile> {
    let (ordered, rest) = reorder_state(profiles, ids, ids.len() as int);
    ordered + rest
}

proof fn lemma_reorder_keeps_profiles(profiles: Seq<DocumentProfile>, ids: Seq<Seq<char>>, n: int)
    requires
        0 <= n <= ids.len(),
    ensures
        ({
            let (ordered, rest) = reorder_state(profiles, ids, n);
            (ordered + rest).to_multiset() == profiles.to_multiset()
        }),
    decreases n,
{
    broadcast use vstd::seq_lib::lemma_multiset_commutative;
    if n > 0 {
        lemma_reorder_keeps_profiles(profiles, ids, n - 1);
        let (ordered, rest) = reorder_state(profiles, ids, n - 1);
        let p = position(rest, ids[n - 1]);
        lemma_position_bounds(rest, ids[n - 1]);
        if p >= 0 {
            vstd::seq_lib::to_multiset_remove(rest, p);
            assert((ordered.push(rest[p]) + rest.remove(p)).to_multiset() =~= (ordered
                + rest).to_multiset());
        }
    }
}

/// Law: reordering keeps every profile, each as often as before.
pub proof fn law_reorder_is_permutation(profiles: Seq<DocumentProfile>, ids: Seq<Seq<char>>)
    ensures
        reordered(profiles, ids).to_multiset() == profiles.to_multiset(),
        reordered(profiles, ids).len() == profiles.len(),
{
    lemma_reorder_keeps_profiles(profiles, ids, ids.len() as int);
    vstd::seq_lib::to_multiset_len(reordered(profiles, ids));
    vstd::seq_lib::to_multiset_len(profiles);
}

/// Puts the profiles named by `ids` first, in that order; the others follow
/// in their old order. Ids that name no profile are skipped.
pub fn reorder_profiles(doc: &mut ProfileDocument, ids: &Vec<String>)
    ensures
        final(doc).profiles@ == reordered(old(doc).profiles@, ids@.map_values(|s: String| s@)),
        final(doc).selected_profile_id == old(doc).selected_profile_id,
        final(doc).profile_sources == old(doc).profile_sources,
        final(doc).next_profile_index == old(doc).next_profile_index,
        final(doc).next_source_index == old(doc).next_source_index,
{
    let ghost want = ids@.map_values(|s: String| s@);
    let ghost start = doc.profiles@;
    let mut rest: Vec<DocumentProfile> = Vec::new();
    std::mem::swap(&mut rest, &mut doc.profiles);
    let mut ordered: Vec<DocumentProfile> = Vec::new();
    let mut k: usize = 0;
    while k < ids.len()
        invariant
            k <= ids.len(),
            want == ids@.map_values(|s: String| s@),
            (ordered@, rest@) == reorder_state(start, want, k as int),
        decreases ids.len() - k,
    {
        let key = chars_of(ids[k].as_str());
        assert(want[k as int] == key@);
        match find_profile(&rest, &key) {
            Some(i) => {
                proof {
                    lemma_position_bounds(rest@, key@);
                }
                let p = rest.remove(i);
                ordered.push(p);
            },
            None => {},
        }
        k = k + 1;
    }
    ordered.append(&mut rest);
    doc.profiles = ordered;
}

/// Selects the profile `id` (trimmed; an empty id clears the selection).
/// Refused when a non-empty id names no profile. Gives whether the
/// selection changed, so the caller knows whether to save.
pub fn set_selected_profile_id(doc: &mut ProfileDocument, id: Option<String>) -> (r: Result<bool, ProfileOpError>)
    ensures
        ({
            let want = match id {
                Some(s) => trim(s@),
                None => Seq::<char>::empty(),
            };
            match r {
                Ok(changed) => {
                    &&& (want.len() == 0 || position(old(doc).profiles@, want) >= 0)
                    &&& changed == (old(doc).selected_profile_id@ != want)
                    &&& final(doc).selected_profile_id@ == want
                    &&& final(doc).profiles == old(doc).profiles
                    &&& final(doc).profile_sources == old(doc).profile_sources
                    &&& final(doc).next_profile_index == old(doc).next_profile_index
                    &&& final(doc).next_source_index == old(doc).next_source_index
                },
                Err(e) => {
                    &&& e matches ProfileOpError::NotFound { id: eid } && eid@ == want
                    &&& want.len() > 0
                    &&& position(old(doc).profiles@, want) == -1
                    &&& *final(doc) == *old(doc)
                },
            }
        }),
{
    let want = match &id {
        Some(s) => {
            let v = chars_of(s.as_str());
            trim_chars(&v)
        },
        None => Vec::new(),
    };
    if want.len() > 0 && find_profile(&doc.profiles, &want).is_none() {
        return Err(ProfileOpError::NotFound { id: string_of(&want) });
    }
    let current = chars_of(doc.selected_profile_id.as_str());
    if seq_eq(&current, &want) {
        return Ok(false);
    }
    doc.selected_profile_id = string_of(&want);
    Ok(true)
}

/// Makes the profile named on the command line the selected one, when a
/// non-blank name is given and a profile has that id; otherwise keeps the
/// stored selection.
pub fn apply_cli_active_profile(doc: &mut ProfileDocument, active_profile: Option<&str>)
    ensures
        final(doc).profiles == old(doc).profiles,
        final(doc).profile_sources == old(doc).profile_sources,
        final(doc).next_profile_index == old(doc).next_profile_index,
        final(doc).next_source_index == old(doc).next_source_index,
        match active_profile {
            Some(a) => if trim(a@).len() > 0 && position(old(doc).profiles@, trim(a@)) >= 0 {
                final(doc).selected_profile_id@ == trim(a@)
            } else {
                final(doc).selected_profile_id == old(doc).selected_profile_id
            },
            None => final(doc).selected_profile_id == old(doc).selected_profile_id,
        },
{
    match active_profile {
        None => {},
        Some(a) => {
            let v = chars_of(a);
            let t = trim_chars(&v);
            if t.len() > 0 && find_profile(&doc.profiles, &t).is_some() {
                doc.selected_profile_id = string_of(&t);
            }
        },
    }
}

/// Replaces the user's copy of the profile `id` by the capturer's copy,
/// leaving every other profile of the user's document as it was.
pub fn merge_profile_from_capturer_selection(
    id: &str,
    user_document: ProfileDocument,
    capturer_document: ProfileDocument,
) -> (r: Result<ProfileDocument, ProfileOpError>)
    ensures
        match r {
            Ok(d) => {
                let c = position(capturer_document.profiles@, id@);
                let u = position(user_document.profiles@, id@);
                &&& c >= 0 && u >= 0
                &&& d.profiles@ == user_document.profiles@.update(u, capturer_document.profiles@[c])
                &&& d.selected_profile_id == user_document.selected_profile_id
                &&& d.profile_sources == user_document.profile_sources
                &&& d.next_profile_index == user_document.next_profile_index
                &&& d.next_source_index == user_document.next_source_index
            },
            Err(ProfileOpError::MissingFromCapturer { id: eid }) => eid@ == id@ && position(
                capturer_document.profiles@,
                id@,
            ) == -1,
            Err(ProfileOpError::MissingFromStore { id: eid }) => eid@ == id@ && position(
                capturer_document.profiles@,
                id@,
            ) >= 0 && position(user_document.profiles@, id@) == -1,
            Err(_) => false,
        },
{
    let key = chars_of(id);
    let c = match find_profile(&capturer_document.profiles, &key) {
        Some(c) => c,
        None => {
            return Err(ProfileOpError::MissingFromCapturer { id: owned(id) });
        },
    };
    let u = match find_profile(&user_document.profiles, &key) {
        Some(u) => u,
        None => {
            return Err(ProfileOpError::MissingFromStore { id: owned(id) });
        },
    };
    proof {
        lemma_position_bounds(capturer_document.profiles@, id@);
        lemma_position_bounds(user_document.profiles@, id@);
    }
    let mut capturer_profiles = capturer_document.profiles;
    let updated = capturer_profiles.remove(c);
    let mut doc = user_document;
    let mut old_profile = updated;
    std::mem::swap(&mut doc.profiles[u], &mut old_profile);
    Ok(doc)
}

/// Law: merging a profile back from a capturer changes no other profile.
pub proof fn law_merge_preserves_unrelated_profiles(
    user_document: ProfileDocument,
    capturer_document: ProfileDocument,
    id: Seq<char>,
    merged: ProfileDocument,
    k: int,
)
    requires
        position(capturer_document.profiles@, id) >= 0,
        position(user_document.profiles@, id) >= 0,
        merged.profiles@ == user_document.profiles@.update(
            position(user_document.profiles@, id),
            capturer_document.profiles@[position(capturer_document.profiles@, id)],
        ),
        0 <= k < user_document.profiles@.len(),
        user_document.profiles@[k].id@ != id,
    ensures
        merged.profiles@[k] == user_document.profiles@[k],
        merged.profiles@.len() == user_document.profiles@.len(),
{
    lemma_position_bounds(user_document.profiles@, id);
}

/// What a calibration of the running profile writes into it.
pub enum CalibrationRecord {
    /// A neutral calibration with its bone rotations (x, y, z, w) and pose.
    Neutral { rotations: Vec<(String, (F32Bits, F32Bits, F32Bits, F32Bits))>, pose: NeutralCalibrationPose },
    /// The neutral calibration is cleared.
    ClearNeutral,
    /// A face pose model built from `valid_samples` samples.
    FacePoseModel {
        neutral_nose_drop_eye_mouth: F32Bits,
        valid_samples: usize,
        median_abs_yaw: F32Bits,
        median_abs_roll: F32Bits,
    },
}

/// Whether `m2` is the modifier block `m` with the record written in: a
/// neutral calibration turns calibration on with its rotations and pose,
/// clearing turns it off and drops both, a face pose model replaces the
/// model block with an enabled one.
pub open spec fn modifier_recorded(m2: ProfileModifierSettings, m: ProfileModifierSettings, record: CalibrationRecord) -> bool {
    match record {
        CalibrationRecord::Neutral { rotations, pose } => {
            &&& m2 == ProfileModifierSettings {
                neutral_calibration_enabled: Some(true),
                neutral_calibration_rotations: Some(rotations),
                neutral_calibration_pose: m2.neutral_calibration_pose,
                ..m
            }
            &&& m2.neutral_calibration_pose matches Some(s) && s@ == pose.spec_profile_value()
        },
        CalibrationRecord::ClearNeutral => m2 == ProfileModifierSettings {
            neutral_calibration_enabled: Some(false),
            neutral_calibration_rotations: None,
            neutral_calibration_pose: None,
            ..m
        },
        CalibrationRecord::FacePoseModel { neutral_nose_drop_eye_mouth, valid_samples, median_abs_yaw, median_abs_roll } => m2
            == ProfileModifierSettings {
            face_pose_model: Some(
                ProfileFacePoseModelSettings {
                    enabled: Some(true),
                    neutral_nose_drop_eye_mouth: Some(neutral_nose_drop_eye_mouth),
                    sample_count: Some(valid_samples as u32),
                    median_abs_yaw: Some(median_abs_yaw),
                    median_abs_roll: Some(median_abs_roll),
                },
            ),
            ..m
        },
    }
}

/// Whether `p2` is the profile `p` with the record written into its
/// modifier block, the runtime selection and the block made where missing.
pub open spec fn profile_recorded(p2: DocumentProfile, p: DocumentProfile, record: CalibrationRecord) -> bool {
    let rt = match p.runtime_selection {
        Some(r) => r,
        None => ProfileRuntimeSettings::spec_empty(),
    };
    let m = match rt.modifier {
        Some(m) => m,
        None => ProfileModifierSettings::spec_empty(),
    };
    &&& p2 == DocumentProfile { runtime_selection: p2.runtime_selection, ..p }
    &&& p2.runtime_selection matches Some(rt2)
    &&& rt2 == ProfileRuntimeSettings { modifier: rt2.modifier, ..rt }
    &&& rt2.modifier matches Some(m2)
    &&& modifier_recorded(m2, m, record)
}

/// Writes a calibration result into the profile `active_profile_id`, the
/// one the runtime runs; refused where no profile has that id.
pub fn record_calibration(doc: &mut ProfileDocument, active_profile_id: &str, record: CalibrationRecord) -> (r: Result<
    (),
    ProfileOpError,
>)
    ensures
        match r {
            Ok(()) => {
                let p = position(old(doc).profiles@, active_profile_id@);
                &&& p >= 0
                &&& final(doc).profiles@ == old(doc).profiles@.update(p, final(doc).profiles@[p])
                &&& profile_recorded(final(doc).profiles@[p], old(doc).profiles@[p], record)
                &&& final(doc).selected_profile_id == old(doc).selected_profile_id
                &&& final(doc).profile_sources == old(doc).profile_sources
                &&& final(doc).next_profile_index == old(doc).next_profile_index
                &&& final(doc).next_source_index == old(doc).next_source_index
            },
            Err(e) => {
                &&& e matches ProfileOpError::NotFound { id } && id@ == active_profile_id@
                &&& position(old(doc).profiles@, active_profile_id@) == -1
                &&& *final(doc) == *old(doc)
            },
        },
{
    let key = chars_of(active_profile_id);
    let p = match find_profile(&doc.profiles, &key) {
        Some(p) => p,
        None => {
            return Err(ProfileOpError::NotFound { id: owned(active_profile_id) });
        },
    };
    proof {
        lemma_position_bounds(doc.profiles@, active_profile_id@);
    }
    let ghost before = doc.profiles@;
    let profile = doc.profiles.remove(p);
    let ghost original = profile;
    let runtime = match profile.runtime_selection {
        Some(r) => r,
        None => ProfileRuntimeSettings::empty(),
    };
    let ghost rt = runtime;
    let modifier = match runtime.modifier {
        Some(m) => m,
        None => ProfileModifierSettings::empty(),
    };
    let ghost m = modifier;
    let ghost rec = record;
    let updated_modifier = match record {
        CalibrationRecord::Neutral { rotations, pose } => ProfileModifierSettings {
            neutral_calibration_enabled: Some(true),
            neutral_calibration_rotations: Some(rotations),
            neutral_calibration_pose: Some(owned(pose.as_profile_value())),
            ..modifier
        },
        CalibrationRecord::ClearNeutral => ProfileModifierSettings {
            neutral_calibration_enabled: Some(false),
            neutral_calibration_rotations: None,
            neutral_calibration_pose: None,
            ..modifier
        },
        CalibrationRecord::FacePoseModel { neutral_nose_drop_eye_mouth, valid_samples, median_abs_yaw, median_abs_roll } => {
            ProfileModifierSettings {
                face_pose_model: Some(
                    ProfileFacePoseModelSettings {
                        enabled: Some(true),
                        neutral_nose_drop_eye_mouth: Some(neutral_nose_drop_eye_mouth),
                        sample_count: Some(valid_samples as u32),
                        median_abs_yaw: Some(median_abs_yaw),
                        median_abs_roll: Some(median_abs_roll),
                    },
                ),
                ..modifier
            }
        },
    };
    assert(modifier_recorded(updated_modifier, m, rec));
    let updated_runtime = ProfileRuntimeSettings { modifier: Some(updated_modifier), ..runtime };
    let updated = DocumentProfile { runtime_selection: Some(updated_runtime), ..profile };
    assert(profile_recorded(updated, original, rec));
    doc.profiles.insert(p, updated);
    assert(doc.profiles@ =~= before.update(p as int, updated));
    Ok(())
}

} // verus!
