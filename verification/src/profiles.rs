//! Viewer profiles: the list the "Who's watching?" gate manages (add, edit,
//! delete with a fallback active profile), the choice a tile click makes,
//! the kids-mode switch, the profile editor's validation, and the four-digit
//! PIN pad that guards locked profiles.

use vstd::prelude::*;
use crate::movie_card_popup::views;
use crate::text::{
    char_is_ascii_digit, chars_of, is_ascii_digit, push_char, push_decimal, str_equal, string_of,
    trim_str, trimmed, decimal,
};

verus! {

/// A viewer profile.
#[derive(Debug)]
pub struct Profile {
    pub id: String,
    pub name: String,
    pub avatar_url: Option<String>,
    pub is_kids: bool,
    pub is_default: Option<bool>,
    pub pin: Option<String>,
    pub sort_order: i32,
}

/// What the profile editor hands back on save.
#[derive(Debug)]
pub struct ProfileFormData {
    pub name: String,
    pub avatar_url: Option<String>,
    pub is_kids: bool,
    pub pin: Option<String>,
}

/// A profile as plain values.
pub struct ProfileView {
    pub id: Seq<char>,
    pub name: Seq<char>,
    pub avatar_url: Option<Seq<char>>,
    pub is_kids: bool,
    pub is_default: Option<bool>,
    pub pin: Option<Seq<char>>,
    pub sort_order: i32,
}

/// The chars of an optional string.
pub open spec fn opt_view(o: Option<String>) -> Option<Seq<char>> {
    match o {
        Some(s) => Some(s@),
        None => None,
    }
}

impl View for Profile {
    type V = ProfileView;

    open spec fn view(&self) -> ProfileView {
        ProfileView {
            id: self.id@,
            name: self.name@,
            avatar_url: opt_view(self.avatar_url),
            is_kids: self.is_kids,
            is_default: self.is_default,
            pin: opt_view(self.pin),
            sort_order: self.sort_order,
        }
    }
}

/// A profile list as plain values.
pub open spec fn list_view(v: Seq<Profile>) -> Seq<ProfileView> {
    v.map_values(|p: Profile| p@)
}

/// The ids of a profile list, in order.
pub open spec fn ids(v: Seq<ProfileView>) -> Seq<Seq<char>> {
    v.map_values(|p: ProfileView| p.id)
}

/// A copy of an optional string.
fn copy_opt(o: &Option<String>) -> (r: Option<String>)
    ensures
        opt_view(r) == opt_view(*o),
{
    match o {
        Some(s) => Some(s.clone()),
        None => None,
    }
}

impl Profile {
    /// A field-by-field copy.
    pub fn copy(&self) -> (r: Profile)
        ensures
            r@ == self@,
    {
        Profile {
            id: self.id.clone(),
            name: self.name.clone(),
            avatar_url: copy_opt(&self.avatar_url),
            is_kids: self.is_kids,
            is_default: self.is_default,
            pin: copy_opt(&self.pin),
            sort_order: self.sort_order,
        }
    }
}

// ───────────────────────────── list edits ─────────────────────────────

/// The id a profile added at `now_ms` gets: `p_<now_ms>`.
pub open spec fn new_profile_id(now_ms: u64) -> Seq<char> {
    "p_"@ + decimal(now_ms as nat)
}

/// Appends a profile built from the editor's form: id `p_<now_ms>`, not the
/// default profile, sorted after the existing ones (its order is the
/// count of profiles, truncated to an `i32`).
pub fn add_profile(profiles: &mut Vec<Profile>, form: ProfileFormData, now_ms: u64)
    ensures
        list_view(final(profiles)@) == list_view(old(profiles)@).push(
            ProfileView {
                id: new_profile_id(now_ms),
                name: form.name@,
                avatar_url: opt_view(form.avatar_url),
                is_kids: form.is_kids,
                is_default: Some(false),
                pin: opt_view(form.pin),
                sort_order: old(profiles)@.len() as i32,
            },
        ),
{
    let mut id = string_of("p_");
    push_decimal(&mut id, now_ms);
    let order = profiles.len() as i32;
    let p = Profile {
        id,
        name: form.name,
        avatar_url: form.avatar_url,
        is_kids: form.is_kids,
        is_default: Some(false),
        pin: form.pin,
        sort_order: order,
    };
    profiles.push(p);
    assert(list_view(profiles@) =~= list_view(old(profiles)@).push(profiles@.last()@));
}

/// The index of the first profile with the given id.
pub fn find_profile(profiles: &Vec<Profile>, id: &str) -> (r: Option<usize>)
    ensures
        match r {
            Some(i) => i < profiles@.len() && profiles@[i as int].id@ == id@ && forall|j: int|
                0 <= j < i ==> (#[trigger] profiles@[j]).id@ != id@,
            None => forall|j: int| 0 <= j < profiles@.len() ==> (#[trigger] profiles@[j]).id@ != id@,
        },
{
    let n = profiles.len();
    let mut i: usize = 0;
    while i < n
        invariant
            n == profiles@.len(),
            i <= n,
            forall|j: int| 0 <= j < i ==> (#[trigger] profiles@[j]).id@ != id@,
        decreases n - i,
    {
        if str_equal(profiles[i].id.as_str(), id) {
            return Some(i);
        }
        i = i + 1;
    }
    None
}

/// `p` with the form's name, avatar, kids flag and PIN.
pub open spec fn edited(p: ProfileView, form: ProfileFormData) -> ProfileView {
    ProfileView {
        name: form.name@,
        avatar_url: opt_view(form.avatar_url),
        is_kids: form.is_kids,
        pin: opt_view(form.pin),
        ..p
    }
}

/// Applies the editor's form to the first profile with id `target_id`;
/// the list is unchanged when no profile has that id.
pub fn edit_profile(profiles: &mut Vec<Profile>, target_id: &str, form: ProfileFormData)
    ensures
        match find_first(list_view(old(profiles)@), target_id@) {
            Some(i) => list_view(final(profiles)@) == list_view(old(profiles)@).update(
                i,
                edited(list_view(old(profiles)@)[i], form),
            ),
            None => list_view(final(profiles)@) == list_view(old(profiles)@),
        },
{
    let found = find_profile(profiles, target_id);
    proof {
        lemma_find_first(list_view(profiles@), target_id@);
    }
    match found {
        Some(i) => {
            let mut p = profiles.remove(i);
            p.name = form.name;
            p.avatar_url = form.avatar_url;
            p.is_kids = form.is_kids;
            p.pin = form.pin;
            profiles.insert(i, p);
            assert(list_view(profiles@) =~= list_view(old(profiles)@).update(
                i as int,
                edited(list_view(old(profiles)@)[i as int], form),
            ));
        },
        None => {},
    }
}

/// The index of the first entry with id `id`, by a scan from the front.
pub open spec fn find_first(v: Seq<ProfileView>, id: Seq<char>) -> Option<int>
    decreases v.len(),
{
    if v.len() == 0 {
        None
    } else {
        match find_first(v.drop_last(), id) {
            Some(i) => Some(i),
            None => if v.last().id == id {
                Some(v.len() - 1)
            } else {
                None
            },
        }
    }
}

/// `find_first` finds the first entry with the id, and only when there is one.
proof fn lemma_find_first(v: Seq<ProfileView>, id: Seq<char>)
    ensures
        match find_first(v, id) {
            Some(i) => 0 <= i < v.len() && v[i].id == id && forall|j: int|
                0 <= j < i ==> (#[trigger] v[j]).id != id,
            None => forall|j: int| 0 <= j < v.len() ==> (#[trigger] v[j]).id != id,
        },
    decreases v.len(),
{
    if v.len() > 0 {
        lemma_find_first(v.drop_last(), id);
        assert forall|j: int| 0 <= j < v.len() - 1 implies v.drop_last()[j] == #[trigger] v[j] by {}
    }
}

/// The profiles whose id is not `id`, in order.
pub open spec fn without_id(v: Seq<ProfileView>, id: Seq<char>) -> Seq<ProfileView>
    decreases v.len(),
{
    if v.len() == 0 {
        seq![]
    } else {
        let w = without_id(v.drop_last(), id);
        if v.last().id != id {
            w.push(v.last())
        } else {
            w
        }
    }
}

/// The active profile id after deleting `target`: kept unless it was the
/// deleted one, in which case the first remaining profile (if any) becomes active.
pub open spec fn active_after_delete(
    remaining: Seq<ProfileView>,
    active: Option<Seq<char>>,
    target: Seq<char>,
) -> Option<Seq<char>> {
    if active == Some(target) {
        if remaining.len() > 0 {
            Some(remaining[0].id)
        } else {
            None
        }
    } else {
        active
    }
}

/// Deletes every profile with id `target_id`; when the active profile was
/// deleted, the first remaining profile becomes active (none if the list is empty).
pub fn delete_profile(profiles: &mut Vec<Profile>, active_id: &mut Option<String>, target_id: &str)
    ensures
        list_view(final(profiles)@) == without_id(list_view(old(profiles)@), target_id@),
        opt_view(*final(active_id)) == active_after_delete(
            list_view(final(profiles)@),
            opt_view(*old(active_id)),
            target_id@,
        ),
{
    let ghost old_view = list_view(profiles@);
    let mut kept: Vec<Profile> = Vec::new();
    let n = profiles.len();
    let mut i: usize = 0;
    while i < n
        invariant
            n == profiles@.len(),
            old_view == list_view(profiles@),
            i <= n,
            list_view(kept@) == without_id(old_view.take(i as int), target_id@),
        decreases n - i,
    {
        let ghost before = list_view(kept@);
        assert(old_view.take(i + 1).drop_last() =~= old_view.take(i as int));
        if !str_equal(profiles[i].id.as_str(), target_id) {
            kept.push(profiles[i].copy());
            assert(list_view(kept@) =~= before.push(old_view[i as int]));
        }
        i = i + 1;
    }
    assert(old_view.take(n as int) =~= old_view);
    *profiles = kept;
    let was_active = match active_id {
        Some(a) => str_equal(a.as_str(), target_id),
        None => false,
    };
    if was_active {
        if profiles.len() > 0 {
            *active_id = Some(profiles[0].id.clone());
        } else {
            *active_id = None;
        }
    }
}


/// The active profile id names a profile of the list, or no profile is active.
pub open spec fn active_is_valid(v: Seq<ProfileView>, active: Option<Seq<char>>) -> bool {
    match active {
        Some(a) => exists|i: int| 0 <= i < v.len() && (#[trigger] v[i]).id == a,
        None => true,
    }
}

/// Deleting keeps exactly the profiles with another id, in their order.
proof fn lemma_without_id(v: Seq<ProfileView>, id: Seq<char>)
    ensures
        forall|i: int| 0 <= i < without_id(v, id).len() ==> (#[trigger] without_id(v, id)[i]).id != id,
        forall|i: int|
            0 <= i < v.len() && (#[trigger] v[i]).id != id ==> exists|j: int|
                0 <= j < without_id(v, id).len() && without_id(v, id)[j] == v[i],
        forall|j: int|
            0 <= j < without_id(v, id).len() ==> exists|i: int|
                0 <= i < v.len() && v[i] == #[trigger] without_id(v, id)[j],
    decreases v.len(),
{
    if v.len() > 0 {
        let d = v.drop_last();
        lemma_without_id(d, id);
        let w = without_id(d, id);
        assert forall|i: int| 0 <= i < v.len() && (#[trigger] v[i]).id != id implies exists|j: int|
            0 <= j < without_id(v, id).len() && without_id(v, id)[j] == v[i] by {
            if i < v.len() - 1 {
                assert(d[i] == v[i]);
                let j = choose|j: int| 0 <= j < w.len() && w[j] == d[i];
                assert(without_id(v, id)[j] == v[i]);
            } else {
                assert(without_id(v, id)[w.len() as int] == v[i]);
            }
        }
        assert forall|j: int| 0 <= j < without_id(v, id).len() implies exists|i: int|
            0 <= i < v.len() && v[i] == #[trigger] without_id(v, id)[j] by {
            if j < w.len() {
                let i = choose|i: int| 0 <= i < d.len() && d[i] == w[j];
                assert(v[i] == d[i]);
            } else {
                assert(v[v.len() - 1] == without_id(v, id)[j]);
            }
        }
    }
}

/// Deleting a profile removes every profile with its id, keeps every other
/// profile, and keeps the active profile id pointing at an existing profile
/// (or none) when it did before.
pub proof fn law_delete_keeps_active_valid(
    v: Seq<ProfileView>,
    active: Option<Seq<char>>,
    target: Seq<char>,
)
    requires
        active_is_valid(v, active),
    ensures
        forall|i: int|
            0 <= i < without_id(v, target).len() ==> (#[trigger] without_id(v, target)[i]).id
                != target,
        forall|i: int|
            0 <= i < v.len() && (#[trigger] v[i]).id != target ==> without_id(v, target).contains(
                v[i],
            ),
        active_is_valid(
            without_id(v, target),
            active_after_delete(without_id(v, target), active, target),
        ),
{
    lemma_without_id(v, target);
    let w = without_id(v, target);
    assert forall|i: int| 0 <= i < v.len() && (#[trigger] v[i]).id != target implies w.contains(
        v[i],
    ) by {
        let j = choose|j: int| 0 <= j < w.len() && w[j] == v[i];
    }
    match active {
        Some(a) => {
            if a != target {
                let i = choose|i: int| 0 <= i < v.len() && (#[trigger] v[i]).id == a;
                let j = choose|j: int| 0 <= j < w.len() && w[j] == v[i];
                assert(w[j].id == a);
            } else if w.len() > 0 {
                assert(w[0].id == w[0].id);
            }
        },
        None => {},
    }
}

// ───────────────────────────── choosing a profile ─────────────────────────────

/// How long the profile-switch overlay shows before the chosen profile
/// becomes active (ms).
pub const SWITCH_OVERLAY_MS: i32 = 850;

/// What clicking a profile tile does.
#[derive(Clone, Copy, Debug, PartialEq, Eq, Structural)]
pub enum TileAction {
    /// In manage mode: open the editor on this profile.
    OpenEditor,
    /// A PIN-locked profile not yet unlocked: ask for its PIN.
    AskPin,
    /// Switch to this profile.
    Switch,
}

/// What a click on a tile does: edit in manage mode; otherwise ask for the
/// PIN of a locked profile not unlocked in this session, else switch.
pub open spec fn tile_action_for(edit_mode: bool, has_pin: bool, unlocked: bool) -> TileAction {
    if edit_mode {
        TileAction::OpenEditor
    } else if has_pin && !unlocked {
        TileAction::AskPin
    } else {
        TileAction::Switch
    }
}

/// Whether `id` is among `ids`.
pub fn contains_id(ids: &Vec<String>, id: &str) -> (r: bool)
    ensures
        r == exists|i: int| 0 <= i < ids@.len() && (#[trigger] ids@[i])@ == id@,
{
    let n = ids.len();
    let mut i: usize = 0;
    while i < n
        invariant
            n == ids@.len(),
            i <= n,
            forall|j: int| 0 <= j < i ==> (#[trigger] ids@[j])@ != id@,
        decreases n - i,
    {
        if str_equal(ids[i].as_str(), id) {
            assert(ids@[i as int]@ == id@);
            return true;
        }
        i = i + 1;
    }
    false
}

/// The action for a click on `profile`'s tile, given the ids unlocked so far.
pub fn tile_action(edit_mode: bool, profile: &Profile, unlocked_ids: &Vec<String>) -> (a: TileAction)
    ensures
        a == tile_action_for(
            edit_mode,
            profile.pin is Some,
            exists|i: int| 0 <= i < unlocked_ids@.len() && (#[trigger] unlocked_ids@[i])@ == profile.id@,
        ),
{
    if edit_mode {
        TileAction::OpenEditor
    } else {
        let unlocked = contains_id(unlocked_ids, profile.id.as_str());
        if profile.pin.is_some() && !unlocked {
            TileAction::AskPin
        } else {
            TileAction::Switch
        }
    }
}

/// Whether another profile may be added: at most five profiles exist.
pub fn can_add_profile(count: usize) -> (b: bool)
    ensures
        b == (count < 5),
{
    count < 5
}

/// Whether the active profile is a kids profile.
pub open spec fn active_is_kids(v: Seq<ProfileView>, active: Option<Seq<char>>) -> bool {
    exists|i: int| 0 <= i < v.len() && Some((#[trigger] v[i]).id) == active && v[i].is_kids
}

/// Whether the active profile is a kids profile.
fn active_profile_is_kids(profiles: &Vec<Profile>, active_id: &Option<String>) -> (r: bool)
    ensures
        r == active_is_kids(list_view(profiles@), opt_view(*active_id)),
{
    let ghost v = list_view(profiles@);
    let n = profiles.len();
    let mut i: usize = 0;
    while i < n
        invariant
            n == profiles@.len(),
            v == list_view(profiles@),
            i <= n,
            forall|j: int|
                0 <= j < i ==> !(Some((#[trigger] v[j]).id) == opt_view(*active_id) && v[j].is_kids),
        decreases n - i,
    {
        let hit = match active_id {
            Some(a) => str_equal(profiles[i].id.as_str(), a.as_str()) && profiles[i].is_kids,
            None => false,
        };
        if hit {
            assert(Some(v[i as int].id) == opt_view(*active_id) && v[i as int].is_kids);
            return true;
        }
        i = i + 1;
    }
    false
}

/// The profile the navbar's kids button switches to: from a kids profile,
/// the first profile that is not one; otherwise the first kids profile.
/// `None` when there is no such profile.
pub fn kids_switch_target(profiles: &Vec<Profile>, active_id: &Option<String>) -> (r: Option<usize>)
    ensures
        ({
            let v = list_view(profiles@);
            let want_kids = !active_is_kids(v, opt_view(*active_id));
            match r {
                Some(i) => i < v.len() && v[i as int].is_kids == want_kids && forall|j: int|
                    0 <= j < i ==> (#[trigger] v[j]).is_kids != want_kids,
                None => forall|j: int| 0 <= j < v.len() ==> (#[trigger] v[j]).is_kids != want_kids,
            }
        }),
{
    let ghost v = list_view(profiles@);
    let n = profiles.len();
    let is_kids = active_profile_is_kids(profiles, active_id);
    let ghost want_kids = !active_is_kids(v, opt_view(*active_id));
    assert(is_kids == !want_kids);
    let mut k: usize = 0;
    while k < n
        invariant
            n == profiles@.len(),
            v == list_view(profiles@),
            want_kids == !is_kids,
            want_kids == !active_is_kids(v, opt_view(*active_id)),
            k <= n,
            forall|j: int| 0 <= j < k ==> (#[trigger] v[j]).is_kids != want_kids,
        decreases n - k,
    {
        if profiles[k].is_kids != is_kids {
            assert(v[k as int].is_kids == profiles@[k as int].is_kids);
            return Some(k);
        }
        k = k + 1;
    }
    None
}

/// The profiles other than the active one, in order (all of them when no
/// profile is active).
pub fn other_profiles(profiles: &Vec<Profile>, active_id: &Option<String>) -> (r: Vec<Profile>)
    ensures
        list_view(r@) == without_id(
            list_view(profiles@),
            match opt_view(*active_id) {
                Some(a) => a,
                None => Seq::<char>::empty(),
            },
        ),
{
    let ghost old_view = list_view(profiles@);
    let active: &str = match active_id {
        Some(a) => a.as_str(),
        None => "",
    };
    proof {
        reveal_strlit("");
        assert(""@ =~= Seq::<char>::empty());
    }
    assert(active@ == match opt_view(*active_id) {
        Some(a) => a,
        None => Seq::<char>::empty(),
    });
    let mut kept: Vec<Profile> = Vec::new();
    let n = profiles.len();
    let mut i: usize = 0;
    while i < n
        invariant
            n == profiles@.len(),
            old_view == list_view(profiles@),
            i <= n,
            list_view(kept@) == without_id(old_view.take(i as int), active@),
        decreases n - i,
    {
        let ghost before = list_view(kept@);
        assert(old_view.take(i + 1).drop_last() =~= old_view.take(i as int));
        if !str_equal(profiles[i].id.as_str(), active) {
            kept.push(profiles[i].copy());
            assert(list_view(kept@) =~= before.push(old_view[i as int]));
        }
        i = i + 1;
    }
    assert(old_view.take(n as int) =~= old_view);
    kept
}

// ───────────────────────────── the profile editor ─────────────────────────────

/// A PIN as the editor accepts it: four chars, all ASCII digits.
pub open spec fn pin_well_formed(pin: Seq<char>) -> bool {
    pin.len() == 4 && forall|i: int| 0 <= i < 4 ==> is_ascii_digit(#[trigger] pin[i])
}

/// Whether the editor's PIN field is acceptable: no PIN, or four digits.
pub fn is_pin_valid(pin_enabled: bool, pin: &str) -> (b: bool)
    ensures
        b == (!pin_enabled || pin_well_formed(pin@)),
{
    if !pin_enabled {
        return true;
    }
    let v = chars_of(pin);
    if v.len() != 4 {
        return false;
    }
    let mut i: usize = 0;
    while i < 4
        invariant
            pin_enabled,
            v@ == pin@,
            v@.len() == 4,
            i <= 4,
            forall|j: int| 0 <= j < i ==> is_ascii_digit(#[trigger] v@[j]),
        decreases 4 - i,
    {
        if !char_is_ascii_digit(v[i]) {
            assert(!is_ascii_digit(pin@[i as int]));
            return false;
        }
        i = i + 1;
    }
    true
}

/// Whether the editor may save: a name that is not blank and a valid PIN field.
pub fn can_save(name: &str, pin_enabled: bool, pin: &str) -> (b: bool)
    ensures
        b == (trimmed(name@).len() > 0 && (!pin_enabled || pin_well_formed(pin@))),
{
    let t = trim_str(name);
    t.unicode_len() > 0 && is_pin_valid(pin_enabled, pin)
}

/// The ASCII digits of `s`, in order.
pub open spec fn digits_of(s: Seq<char>) -> Seq<char>
    decreases s.len(),
{
    if s.len() == 0 {
        s
    } else if is_ascii_digit(s.last()) {
        digits_of(s.drop_last()).push(s.last())
    } else {
        digits_of(s.drop_last())
    }
}

/// At most the first `n` entries of `s`.
pub open spec fn at_most(s: Seq<char>, n: int) -> Seq<char> {
    if s.len() <= n {
        s
    } else {
        s.take(n)
    }
}

/// What a PIN input keeps of typed text: its first `max` ASCII digits.
pub fn keep_digits(text: &str, max: usize) -> (r: String)
    ensures
        r@ == at_most(digits_of(text@), max as int),
{
    let v = chars_of(text);
    let mut r = String::new();
    let mut count: usize = 0;
    let n = v.len();
    let mut i: usize = 0;
    while i < n
        invariant
            n == v@.len(),
            v@ == text@,
            i <= n,
            count <= max,
            count == r@.len(),
            r@ == at_most(digits_of(v@.take(i as int)), max as int),
        decreases n - i,
    {
        assert(v@.take(i + 1).drop_last() =~= v@.take(i as int));
        let ghost d_before = digits_of(v@.take(i as int));
        if char_is_ascii_digit(v[i]) {
            assert(digits_of(v@.take(i + 1)) == d_before.push(v@[i as int]));
            if count < max {
                push_char(&mut r, v[i]);
                count = count + 1;
                assert(r@ =~= at_most(d_before.push(v@[i as int]), max as int));
            } else {
                assert(at_most(d_before.push(v@[i as int]), max as int) =~= at_most(d_before, max as int));
            }
        }
        i = i + 1;
    }
    assert(v@.take(n as int) =~= v@);
    r
}

/// The form the editor hands back: the trimmed name, the chosen avatar, the
/// kids flag, and the PIN when the lock is enabled.
pub fn build_form(name: &str, avatar_url: &str, is_kids: bool, pin_enabled: bool, pin: &str) -> (f: ProfileFormData)
    ensures
        f.name@ == trimmed(name@),
        opt_view(f.avatar_url) == Some(avatar_url@),
        f.is_kids == is_kids,
        opt_view(f.pin) == (if pin_enabled {
            Some(pin@)
        } else {
            None
        }),
{
    ProfileFormData {
        name: string_of(trim_str(name)),
        avatar_url: Some(string_of(avatar_url)),
        is_kids,
        pin: if pin_enabled {
            Some(string_of(pin))
        } else {
            None
        },
    }
}


// ───────────────────────────── the PIN pad ─────────────────────────────

/// What the PIN pad does after a key or a typed digit.
#[derive(Clone, Copy, Debug, PartialEq, Eq, Structural)]
pub enum PinStep {
    /// Nothing more to do.
    Stay,
    /// Move the focus to the box with this index.
    Focus(usize),
    /// The four digits match the PIN: open the profile.
    Unlock,
    /// The four digits do not match: the boxes were cleared, shake and
    /// focus the first box.
    Reject,
    /// Close the prompt.
    Cancel,
}

/// The four boxes of the PIN prompt, each empty or holding one digit.
pub struct PinPad {
    digits: Vec<String>,
}

/// The text of the four boxes, one after the other.
pub open spec fn joined(d: Seq<Seq<char>>) -> Seq<char> {
    d[0] + d[1] + d[2] + d[3]
}

/// Four empty boxes.
pub open spec fn empty_boxes() -> Seq<Seq<char>> {
    seq![Seq::<char>::empty(), Seq::<char>::empty(), Seq::<char>::empty(), Seq::<char>::empty()]
}

/// Four boxes that are empty or hold one ASCII digit each.
pub open spec fn boxes_ok(b: Seq<Seq<char>>) -> bool {
    &&& b.len() == 4
    &&& forall|i: int| 0 <= i < 4 ==> (#[trigger] b[i]).len() <= 1 && (b[i].len() == 1 ==> is_ascii_digit(b[i][0]))
}

impl PinPad {
    /// The boxes as plain text.
    pub closed spec fn boxes(&self) -> Seq<Seq<char>> {
        views(self.digits@)
    }

    /// A pad always has four boxes, each empty or holding one digit.
    #[verifier::type_invariant]
    spec fn well_formed(&self) -> bool {
        boxes_ok(self.boxes())
    }

    /// A prompt with four empty boxes.
    pub fn new() -> (pad: PinPad)
        ensures
            pad.boxes() == empty_boxes(),
            boxes_ok(pad.boxes()),
    {
        let digits = vec![String::new(), String::new(), String::new(), String::new()];
        assert(views(digits@) =~= empty_boxes());
        PinPad { digits }
    }

    /// The text of box `i`.
    pub fn box_text(&self, i: usize) -> (t: &str)
        requires
            i < 4,
        ensures
            t@ == self.boxes()[i as int],
    {
        proof {
            use_type_invariant(self);
        }
        self.digits[i].as_str()
    }

    /// Text typed into box `idx`: the box keeps the first ASCII digit typed
    /// (or becomes empty). A digit in one of the first three boxes moves the
    /// focus on; a digit in the last box, with all four boxes filled, checks
    /// the four digits against `pin`: a match unlocks, a mismatch clears the boxes.
    pub fn type_into(&mut self, idx: usize, typed: &str, pin: &str) -> (step: PinStep)
        ensures
            boxes_ok(final(self).boxes()),
            ({
                let clean = at_most(digits_of(typed@), 1);
                let d1 = if idx < 4 {
                    old(self).boxes().update(idx as int, clean)
                } else {
                    old(self).boxes()
                };
                if clean.len() == 0 {
                    step == PinStep::Stay && final(self).boxes() == d1
                } else if idx < 3 {
                    step == PinStep::Focus((idx + 1) as usize) && final(self).boxes() == d1
                } else if joined(d1).len() == 4 {
                    if joined(d1) == pin@ {
                        step == PinStep::Unlock && final(self).boxes() == d1
                    } else {
                        step == PinStep::Reject && final(self).boxes() == empty_boxes()
                    }
                } else {
                    step == PinStep::Stay && final(self).boxes() == d1
                }
            }),
    {
        proof {
            use_type_invariant(&*self);
        }
        let clean = keep_digits(typed, 1);
        let ghost cl = clean@;
        let clean_empty = clean.as_str().unicode_len() == 0;
        proof {
            lemma_digits_of_all_digits(typed@);
        }
        if idx < 4 {
            let mut d = vec![
                string_of(self.digits[0].as_str()),
                string_of(self.digits[1].as_str()),
                string_of(self.digits[2].as_str()),
                string_of(self.digits[3].as_str()),
            ];
            assert(views(d@) =~= old(self).boxes());
            d.set(idx, clean);
            assert(views(d@) =~= old(self).boxes().update(idx as int, cl));
            *self = PinPad { digits: d };
        }
        if clean_empty {
            return PinStep::Stay;
        }
        if idx < 3 {
            return PinStep::Focus(idx + 1);
        }
        let mut all = self.digits[0].clone();
        all.append(self.digits[1].as_str());
        all.append(self.digits[2].as_str());
        all.append(self.digits[3].as_str());
        assert(all@ == joined(self.boxes()));
        if all.as_str().unicode_len() == 4 {
            if str_equal(all.as_str(), pin) {
                PinStep::Unlock
            } else {
                self.digits = vec![String::new(), String::new(), String::new(), String::new()];
                assert(self.boxes() =~= empty_boxes());
                PinStep::Reject
            }
        } else {
            PinStep::Stay
        }
    }

    /// A key pressed in box `idx`: Backspace in an empty box moves the focus
    /// back one box, Escape closes the prompt; other keys do nothing here.
    pub fn key_down(&self, idx: usize, key: &str) -> (step: PinStep)
        ensures
            step == (if key@ == "Backspace"@ {
                if idx < 4 && self.boxes()[idx as int].len() == 0 && idx > 0 {
                    PinStep::Focus((idx - 1) as usize)
                } else {
                    PinStep::Stay
                }
            } else if key@ == "Escape"@ {
                PinStep::Cancel
            } else {
                PinStep::Stay
            }),
    {
        proof {
            use_type_invariant(self);
        }
        if str_equal(key, "Backspace") {
            if idx < self.digits.len() && self.digits[idx].as_str().unicode_len() == 0 && idx > 0 {
                PinStep::Focus(idx - 1)
            } else {
                PinStep::Stay
            }
        } else if str_equal(key, "Escape") {
            PinStep::Cancel
        } else {
            PinStep::Stay
        }
    }
}

/// The digits kept from any text are all ASCII digits.
proof fn lemma_digits_of_all_digits(s: Seq<char>)
    ensures
        forall|i: int| 0 <= i < digits_of(s).len() ==> is_ascii_digit(#[trigger] digits_of(s)[i]),
    decreases s.len(),
{
    if s.len() > 0 {
        lemma_digits_of_all_digits(s.drop_last());
        let d = digits_of(s.drop_last());
        if is_ascii_digit(s.last()) {
            assert forall|i: int| 0 <= i < digits_of(s).len() implies is_ascii_digit(
                #[trigger] digits_of(s)[i],
            ) by {
                if i < d.len() {
                    assert(digits_of(s)[i] == d[i]);
                }
            }
        }
    }
}

// ───────────────────────────── avatars ─────────────────────────────

/// The picture shown when a profile has none of its own.
pub open spec fn default_avatar() -> Seq<char> {
    "https://wallpapers.com/images/hd/netflix-profile-pictures-1000-x-1000-88wkdmjrorckekha.jpg"@
}

/// How a profile's avatar is drawn.
pub enum AvatarArt {
    /// The drawn kids emblem.
    KidsEmblem,
    /// A picture at this URL.
    Picture(String),
}

/// The avatar of a profile (or of no profile): the kids emblem for a kids
/// profile without a picture of its own, else its picture, else the default
/// picture.
pub fn avatar_art(profile: Option<&Profile>) -> (a: AvatarArt)
    ensures
        match profile {
            Some(p) => if p@.is_kids && p@.avatar_url is None {
                a is KidsEmblem
            } else {
                a matches AvatarArt::Picture(u) && u@ == match p@.avatar_url {
                    Some(x) => x,
                    None => default_avatar(),
                }
            },
            None => a matches AvatarArt::Picture(u) && u@ == default_avatar(),
        },
{
    match profile {
        Some(p) => {
            if p.is_kids && p.avatar_url.is_none() {
                AvatarArt::KidsEmblem
            } else {
                match &p.avatar_url {
                    Some(u) => AvatarArt::Picture(u.clone()),
                    None => AvatarArt::Picture(
                        string_of(
                            "https://wallpapers.com/images/hd/netflix-profile-pictures-1000-x-1000-88wkdmjrorckekha.jpg",
                        ),
                    ),
                }
            }
        },
        None => AvatarArt::Picture(
            string_of("https://wallpapers.com/images/hd/netflix-profile-pictures-1000-x-1000-88wkdmjrorckekha.jpg"),
        ),
    }
}

/// The picture of a profile, or the default picture.
pub fn avatar_url_or_default(profile: Option<&Profile>) -> (u: String)
    ensures
        u@ == match profile {
            Some(p) => match p@.avatar_url {
                Some(x) => x,
                None => default_avatar(),
            },
            None => default_avatar(),
        },
{
    match profile {
        Some(p) => match &p.avatar_url {
            Some(u) => u.clone(),
            None => string_of(
                "https://wallpapers.com/images/hd/netflix-profile-pictures-1000-x-1000-88wkdmjrorckekha.jpg",
            ),
        },
        None => string_of(
            "https://wallpapers.com/images/hd/netflix-profile-pictures-1000-x-1000-88wkdmjrorckekha.jpg",
        ),
    }
}

} // verus!
