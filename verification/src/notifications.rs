//! The notification bell: the arrivals it lists (from trending films and
//! series that have artwork), how many of them are unread, and the badge text.

use vstd::prelude::*;
use crate::movie_card_popup::views;
use crate::text::{decimal, push_decimal, str_equal, string_of};

verus! {

/// A trending title offered to the bell: its TMDB id, its title (if known)
/// and its artwork URL (backdrop, else poster, if either exists).
pub struct NotificationSource {
    pub id: u32,
    pub title: Option<String>,
    pub image: Option<String>,
}

/// One entry of the bell's list.
#[derive(Debug)]
pub struct AppNotification {
    pub id: String,
    pub movie_id: u32,
    pub is_tv: bool,
    pub headline: String,
    pub body: String,
    pub backdrop: String,
    pub relative_time: String,
}

/// An entry of the bell's list as plain values.
pub struct NotificationView {
    pub id: Seq<char>,
    pub movie_id: u32,
    pub is_tv: bool,
    pub headline: Seq<char>,
    pub body: Seq<char>,
    pub backdrop: Seq<char>,
    pub relative_time: Seq<char>,
}

impl View for AppNotification {
    type V = NotificationView;

    open spec fn view(&self) -> NotificationView {
        NotificationView {
            id: self.id@,
            movie_id: self.movie_id,
            is_tv: self.is_tv,
            headline: self.headline@,
            body: self.body@,
            backdrop: self.backdrop@,
            relative_time: self.relative_time@,
        }
    }
}

/// A list of entries as plain values.
pub open spec fn notif_views(v: Seq<AppNotification>) -> Seq<NotificationView> {
    v.map_values(|n: AppNotification| n@)
}

/// The age caption of the `idx`-th trending entry of its kind.
pub open spec fn relative_time_for(idx: int, is_tv: bool) -> Seq<char> {
    if idx == 0 {
        "New"@
    } else if idx == 1 {
        if is_tv {
            "2 days ago"@
        } else {
            "1 day ago"@
        }
    } else if idx == 2 {
        if is_tv {
            "1 week ago"@
        } else {
            "3 days ago"@
        }
    } else if idx == 3 {
        if is_tv {
            "2 weeks ago"@
        } else {
            "1 week ago"@
        }
    } else if idx == 4 {
        if is_tv {
            "3 weeks ago"@
        } else {
            "2 weeks ago"@
        }
    } else if idx == 5 && !is_tv {
        "3 weeks ago"@
    } else {
        "1 month ago"@
    }
}

/// The headline of the `idx`-th trending entry of its kind.
pub open spec fn headline_for(idx: int, is_tv: bool) -> Seq<char> {
    if is_tv {
        if idx == 0 {
            "New season available"@
        } else if idx == 1 {
            "Top series for you"@
        } else if idx == 2 {
            "Everyone's watching"@
        } else if idx == 3 {
            "A top comedy picked for you"@
        } else if idx == 4 {
            "Binge-worthy"@
        } else if idx == 5 {
            "Top 10 series in the UK"@
        } else if idx == 6 {
            "New arrival"@
        } else {
            "New on PStream"@
        }
    } else {
        if idx == 0 {
            "Top pick for you"@
        } else if idx == 1 {
            "Trending now"@
        } else if idx == 2 {
            "Don't miss out"@
        } else if idx == 3 {
            "New arrival"@
        } else if idx == 4 {
            "A must-watch"@
        } else if idx == 5 {
            "Top 10 in the UK"@
        } else if idx == 6 {
            "Critics' choice"@
        } else {
            "New on PStream"@
        }
    }
}

/// The entry made for the `idx`-th trending title of its kind, shown with `image`.
pub open spec fn entry_for(src: NotificationSource, idx: int, is_tv: bool, image: Seq<char>) -> NotificationView {
    NotificationView {
        id: (if is_tv {
            "notif-tv-"@
        } else {
            "notif-movie-"@
        }) + decimal(src.id as nat),
        movie_id: src.id,
        is_tv,
        headline: headline_for(idx, is_tv),
        body: match src.title {
            Some(t) => t@,
            None => Seq::<char>::empty(),
        },
        backdrop: image,
        relative_time: relative_time_for(idx, is_tv),
    }
}

/// The entries of the trending titles of one kind that have artwork, in order.
pub open spec fn entries_with_art(srcs: Seq<NotificationSource>, is_tv: bool) -> Seq<NotificationView>
    decreases srcs.len(),
{
    if srcs.len() == 0 {
        seq![]
    } else {
        let rest = entries_with_art(srcs.drop_last(), is_tv);
        match srcs.last().image {
            Some(img) => rest.push(entry_for(srcs.last(), srcs.len() - 1, is_tv, img@)),
            None => rest,
        }
    }
}

/// At most the first `n` entries of `s`.
pub open spec fn first_n(s: Seq<NotificationView>, n: int) -> Seq<NotificationView> {
    if s.len() <= n {
        s
    } else {
        s.take(n)
    }
}

/// The bell's list: at most 8 films with artwork, then series with artwork
/// until 16 entries in all.
pub open spec fn notification_list(movies: Seq<NotificationSource>, shows: Seq<NotificationSource>) -> Seq<NotificationView> {
    let m = first_n(entries_with_art(movies, false), 8);
    m + first_n(entries_with_art(shows, true), 16 - m.len())
}

/// The age caption of the `idx`-th trending entry of its kind.
fn relative_time_of(idx: usize, is_tv: bool) -> (s: &'static str)
    ensures
        s@ == relative_time_for(idx as int, is_tv),
{
    if idx == 0 {
        "New"
    } else if idx == 1 {
        if is_tv {
            "2 days ago"
        } else {
            "1 day ago"
        }
    } else if idx == 2 {
        if is_tv {
            "1 week ago"
        } else {
            "3 days ago"
        }
    } else if idx == 3 {
        if is_tv {
            "2 weeks ago"
        } else {
            "1 week ago"
        }
    } else if idx == 4 {
        if is_tv {
            "3 weeks ago"
        } else {
            "2 weeks ago"
        }
    } else if idx == 5 && !is_tv {
        "3 weeks ago"
    } else {
        "1 month ago"
    }
}

/// The headline of the `idx`-th trending entry of its kind.
fn headline_of(idx: usize, is_tv: bool) -> (s: &'static str)
    ensures
        s@ == headline_for(idx as int, is_tv),
{
    if is_tv {
        if idx == 0 {
            "New season available"
        } else if idx == 1 {
            "Top series for you"
        } else if idx == 2 {
            "Everyone's watching"
        } else if idx == 3 {
            "A top comedy picked for you"
        } else if idx == 4 {
            "Binge-worthy"
        } else if idx == 5 {
            "Top 10 series in the UK"
        } else if idx == 6 {
            "New arrival"
        } else {
            "New on PStream"
        }
    } else {
        if idx == 0 {
            "Top pick for you"
        } else if idx == 1 {
            "Trending now"
        } else if idx == 2 {
            "Don't miss out"
        } else if idx == 3 {
            "New arrival"
        } else if idx == 4 {
            "A must-watch"
        } else if idx == 5 {
            "Top 10 in the UK"
        } else if idx == 6 {
            "Critics' choice"
        } else {
            "New on PStream"
        }
    }
}

/// Appends to `list` the entries for `srcs` (of one kind) that have
/// artwork, stopping once `list` holds `cap` entries.
fn push_entries(list: &mut Vec<AppNotification>, srcs: &Vec<NotificationSource>, is_tv: bool, cap: usize)
    requires
        old(list)@.len() <= cap,
    ensures
        notif_views(final(list)@) == notif_views(old(list)@) + first_n(
            entries_with_art(srcs@, is_tv),
            cap - old(list)@.len(),
        ),
{
    let ghost start = notif_views(list@);
    let ghost room = cap - list@.len();
    let n = srcs.len();
    let mut i: usize = 0;
    while i < n
        invariant
            n == srcs@.len(),
            i <= n,
            start.len() + room == cap,
            start == notif_views(old(list)@),
            room == cap - old(list)@.len(),
            room >= 0,
            list@.len() <= cap,
            notif_views(list@) == start + first_n(entries_with_art(srcs@.take(i as int), is_tv), room),
            list@.len() < cap ==> notif_views(list@) == start + entries_with_art(srcs@.take(i as int), is_tv),
        decreases n - i,
    {
        let ghost e_before = entries_with_art(srcs@.take(i as int), is_tv);
        assert(srcs@.take(i + 1).drop_last() =~= srcs@.take(i as int));
        if list.len() >= cap {
            proof {
                lemma_entries_prefix(srcs@, i as int, is_tv);
                let all = entries_with_art(srcs@, is_tv);
                assert(notif_views(list@).len() == list@.len());
                assert(list@.len() == cap);
                assert((start + first_n(e_before, room)).len() == cap);
                assert(first_n(e_before, room).len() == room);
                assert(e_before.len() >= room);
                assert forall|k: int| 0 <= k < room implies #[trigger] all.take(room)[k] == e_before.take(
                    room,
                )[k] by {
                    assert(all.subrange(0, e_before.len() as int)[k] == all[k]);
                }
                assert(all.take(room) =~= e_before.take(room));
                assert(first_n(all, room) =~= first_n(e_before, room));
            }
            return;
        }
        let src = &srcs[i];
        match &src.image {
            Some(img) => {
                let mut id = if is_tv {
                    string_of("notif-tv-")
                } else {
                    string_of("notif-movie-")
                };
                push_decimal(&mut id, src.id as u64);
                let body = match &src.title {
                    Some(t) => t.clone(),
                    None => String::new(),
                };
                let entry = AppNotification {
                    id,
                    movie_id: src.id,
                    is_tv,
                    headline: string_of(headline_of(i, is_tv)),
                    body,
                    backdrop: img.clone(),
                    relative_time: string_of(relative_time_of(i, is_tv)),
                };
                assert(entry@ == entry_for(srcs@[i as int], i as int, is_tv, img@));
                let ghost lv = notif_views(list@);
                list.push(entry);
                assert(notif_views(list@) =~= lv.push(entry_for(srcs@[i as int], i as int, is_tv, img@)));
                assert(entries_with_art(srcs@.take(i + 1), is_tv) == e_before.push(
                    entry_for(srcs@[i as int], i as int, is_tv, img@),
                ));
                assert(notif_views(list@) =~= start + e_before.push(
                    entry_for(srcs@[i as int], i as int, is_tv, img@),
                ));
            },
            None => {
                assert(entries_with_art(srcs@.take(i + 1), is_tv) == e_before);
            },
        }
        i = i + 1;
    }
    assert(srcs@.take(n as int) =~= srcs@);
}

/// Entries computed from a prefix of the titles are a prefix of those of all titles.
proof fn lemma_entries_prefix(srcs: Seq<NotificationSource>, i: int, is_tv: bool)
    requires
        0 <= i <= srcs.len(),
    ensures
        entries_with_art(srcs.take(i), is_tv).len() <= entries_with_art(srcs, is_tv).len(),
        entries_with_art(srcs, is_tv).subrange(0, entries_with_art(srcs.take(i), is_tv).len() as int)
            == entries_with_art(srcs.take(i), is_tv),
    decreases srcs.len() - i,
{
    if i < srcs.len() {
        lemma_entries_prefix(srcs, i + 1, is_tv);
        assert(srcs.take(i + 1).drop_last() =~= srcs.take(i));
        let a = entries_with_art(srcs.take(i), is_tv);
        let b = entries_with_art(srcs.take(i + 1), is_tv);
        let c = entries_with_art(srcs, is_tv);
        assert(b.subrange(0, a.len() as int) =~= a);
        assert(c.subrange(0, a.len() as int) =~= c.subrange(0, b.len() as int).subrange(0, a.len() as int));
    } else {
        assert(srcs.take(i) =~= srcs);
    }
}

/// The bell's list built from the trending films and series: up to 8 films
/// that have artwork, then series that have artwork until 16 entries; each
/// entry gets an id `notif-movie-<id>`/`notif-tv-<id>`, a headline and an
/// age caption chosen by its position among the trending titles of its kind,
/// the title as body, and the artwork.
pub fn build_notifications(movies: &Vec<NotificationSource>, shows: &Vec<NotificationSource>) -> (list: Vec<AppNotification>)
    ensures
        notif_views(list@) == notification_list(movies@, shows@),
        list@.len() <= 16,
{
    let mut list: Vec<AppNotification> = Vec::new();
    push_entries(&mut list, movies, false, 8);
    let ghost m = notif_views(list@);
    assert(m =~= first_n(entries_with_art(movies@, false), 8));
    push_entries(&mut list, shows, true, 16);
    assert(notif_views(list@) =~= notification_list(movies@, shows@));
    list
}

// ───────────────────────────── read state ─────────────────────────────

/// The ids already read, as a set.
pub open spec fn read_set(read_ids: Seq<String>) -> Set<Seq<char>> {
    Set::new(|id: Seq<char>| exists|i: int| 0 <= i < read_ids.len() && (#[trigger] read_ids[i])@ == id)
}

/// The number of entries whose id is not in `read`.
pub open spec fn unread_in(items: Seq<NotificationView>, read: Set<Seq<char>>) -> nat
    decreases items.len(),
{
    if items.len() == 0 {
        0
    } else {
        unread_in(items.drop_last(), read) + (if read.contains(items.last().id) {
            0nat
        } else {
            1nat
        })
    }
}

/// The unread count never exceeds the number of entries, and is zero once
/// every entry's id is read.
pub proof fn law_unread_bounded(items: Seq<NotificationView>, read: Set<Seq<char>>)
    ensures
        unread_in(items, read) <= items.len(),
        (forall|i: int| 0 <= i < items.len() ==> read.contains(#[trigger] items[i].id)) ==> unread_in(items, read) == 0,
    decreases items.len(),
{
    if items.len() > 0 {
        law_unread_bounded(items.drop_last(), read);
        if forall|i: int| 0 <= i < items.len() ==> read.contains(#[trigger] items[i].id) {
            assert forall|i: int| 0 <= i < items.drop_last().len() implies read.contains(
                #[trigger] items.drop_last()[i].id,
            ) by {
                assert(items.drop_last()[i] == items[i]);
            }
            assert(read.contains(items[items.len() - 1].id));
        }
    }
}

/// Whether `id` is among the read ids.
pub fn is_read(read_ids: &Vec<String>, id: &str) -> (r: bool)
    ensures
        r == read_set(read_ids@).contains(id@),
{
    let n = read_ids.len();
    let mut i: usize = 0;
    while i < n
        invariant
            n == read_ids@.len(),
            i <= n,
            forall|j: int| 0 <= j < i ==> (#[trigger] read_ids@[j])@ != id@,
        decreases n - i,
    {
        if str_equal(read_ids[i].as_str(), id) {
            assert(read_ids@[i as int]@ == id@);
            return true;
        }
        i = i + 1;
    }
    false
}

/// How many entries of the list are unread.
pub fn unread_count(items: &Vec<AppNotification>, read_ids: &Vec<String>) -> (c: usize)
    ensures
        c == unread_in(notif_views(items@), read_set(read_ids@)),
{
    let ghost iv = notif_views(items@);
    let n = items.len();
    let mut c: usize = 0;
    let mut i: usize = 0;
    while i < n
        invariant
            n == items@.len(),
            iv == notif_views(items@),
            i <= n,
            c <= i,
            c == unread_in(iv.take(i as int), read_set(read_ids@)),
        decreases n - i,
    {
        assert(iv.take(i + 1).drop_last() =~= iv.take(i as int));
        if !is_read(read_ids, items[i].id.as_str()) {
            c = c + 1;
        }
        i = i + 1;
    }
    assert(iv.take(n as int) =~= iv);
    c
}

/// Records `id` as read, keeping each id once.
pub fn mark_read(read_ids: &mut Vec<String>, id: &str)
    ensures
        read_set(final(read_ids)@) == read_set(old(read_ids)@).insert(id@),
{
    if !is_read(read_ids, id) {
        read_ids.push(string_of(id));
    }
    assert(read_set(read_ids@) =~= read_set(old(read_ids)@).insert(id@)) by {
        assert forall|x: Seq<char>| read_set(read_ids@).contains(x) implies read_set(
            old(read_ids)@,
        ).insert(id@).contains(x) by {
            let i = choose|i: int| 0 <= i < read_ids@.len() && (#[trigger] read_ids@[i])@ == x;
            if i < old(read_ids)@.len() {
                assert(old(read_ids)@[i] == read_ids@[i]);
            }
        }
        assert forall|x: Seq<char>| read_set(old(read_ids)@).insert(id@).contains(x) implies read_set(
            read_ids@,
        ).contains(x) by {
            if x != id@ {
                let i = choose|i: int| 0 <= i < old(read_ids)@.len() && (#[trigger] old(read_ids)@[i])@ == x;
                assert(read_ids@[i] == old(read_ids)@[i]);
            } else if read_ids@.len() > old(read_ids)@.len() {
                assert(read_ids@[old(read_ids)@.len() as int]@ == id@);
            }
        }
    }
}

/// The text of the unread badge: the count, or `99+` above 99.
pub fn badge_text(count: usize) -> (s: String)
    ensures
        s@ == (if count > 99 {
            "99+"@
        } else {
            decimal(count as nat)
        }),
{
    if count > 99 {
        string_of("99+")
    } else {
        let mut s = String::new();
        push_decimal(&mut s, count as u64);
        s
    }
}

// ───────────────────────────── stored read marks ─────────────────────────────

/// What `serde_json::from_str::<Vec<String>>` reads from `text`: the list
/// of strings, or nothing when the text is not a JSON array of strings.
pub uninterp spec fn json_strings(text: Seq<char>) -> Option<Seq<Seq<char>>>;

/// The JSON text that `serde_json::to_string` writes for a list of strings.
pub uninterp spec fn strings_json(items: Seq<Seq<char>>) -> Seq<char>;

/// Calls `serde_json::from_str::<Vec<String>>`; the contract only names what
/// it reads (a function of the text alone).
#[verifier::external_body]
pub(crate) fn parse_json_strings(text: &str) -> (r: Option<Vec<String>>)
    ensures
        match r {
            Some(v) => json_strings(text@) == Some(views(v@)),
            None => json_strings(text@) is None,
        },
{
    serde_json::from_str::<Vec<String>>(text).ok()
}

/// Calls `serde_json::to_string` on a list of strings. It fails only when
/// a `Serialize` impl fails or a map has non-string keys, neither of which
/// a list of strings has, so a text always comes back; the contract names
/// that text, and says that `serde_json::from_str` reads the same list back
/// from it (every char of a string is written escaped or as itself).
#[verifier::external_body]
pub(crate) fn write_json_strings(items: &Vec<String>) -> (r: Option<String>)
    ensures
        r is Some,
        r matches Some(t) ==> t@ == strings_json(views(items@)),
        r matches Some(t) ==> json_strings(t@) == Some(views(items@)),
{
    serde_json::to_string(items).ok()
}

/// The ids marked read, from the list that storage held (none when it held
/// nothing readable).
pub fn read_ids_from_list(list: Option<Vec<String>>) -> (ids: Vec<String>)
    ensures
        read_set(ids@) == match list {
            Some(v) => read_set(v@),
            None => Set::<Seq<char>>::empty(),
        },
{
    let mut ids: Vec<String> = Vec::new();
    assert(read_set(ids@) =~= Set::<Seq<char>>::empty());
    match list {
        None => ids,
        Some(v) => {
            let n = v.len();
            let mut i: usize = 0;
            while i < n
                invariant
                    n == v@.len(),
                    i <= n,
                    read_set(ids@) == read_set(v@.take(i as int)),
                decreases n - i,
            {
                mark_read(&mut ids, v[i].as_str());
                assert(read_set(v@.take(i + 1)) =~= read_set(v@.take(i as int)).insert(v@[i as int]@)) by {
                    assert forall|x: Seq<char>| read_set(v@.take(i + 1)).contains(x) implies read_set(
                        v@.take(i as int),
                    ).insert(v@[i as int]@).contains(x) by {
                        let k = choose|k: int| 0 <= k < v@.take(i + 1).len() && (#[trigger] v@.take(i + 1)[k])@ == x;
                        if k < i {
                            assert(v@.take(i as int)[k] == v@.take(i + 1)[k]);
                        }
                    }
                    assert forall|x: Seq<char>| read_set(v@.take(i as int)).insert(v@[i as int]@).contains(x)
                        implies read_set(v@.take(i + 1)).contains(x) by {
                        if x == v@[i as int]@ {
                            assert(v@.take(i + 1)[i as int] == v@[i as int]);
                        } else {
                            let k = choose|k: int| 0 <= k < v@.take(i as int).len() && (#[trigger] v@.take(i as int)[k])@ == x;
                            assert(v@.take(i + 1)[k] == v@.take(i as int)[k]);
                        }
                    }
                }
                i = i + 1;
            }
            assert(v@.take(n as int) =~= v@);
            ids
        },
    }
}

/// The ids marked read, from the text that storage held under the read
/// marks' key (see `read_ids_from_list`).
pub fn read_ids_from_text(text: Option<&str>) -> (ids: Vec<String>)
    ensures
        read_set(ids@) == stored_read_set(
            match text {
                Some(t) => Some(t@),
                None => None,
            },
        ),
{
    match text {
        None => read_ids_from_list(None),
        Some(t) => {
            let list = parse_json_strings(t);
            let ids = read_ids_from_list(list);
            proof {
                if json_strings(t@) is Some {
                    let v = list.unwrap();
                    assert(read_set(v@) =~= views(v@).to_set()) by {
                        assert forall|x: Seq<char>| read_set(v@).contains(x) implies views(v@).to_set().contains(x) by {
                            let k = choose|k: int| 0 <= k < v@.len() && (#[trigger] v@[k])@ == x;
                            assert(views(v@)[k] == x);
                        }
                        assert forall|x: Seq<char>| views(v@).to_set().contains(x) implies read_set(v@).contains(x) by {
                            let k = choose|k: int| 0 <= k < views(v@).len() && views(v@)[k] == x;
                            assert(v@[k]@ == x);
                        }
                    }
                }
            }
            ids
        },
    }
}

/// The text stored under the read marks' key: the ids as a JSON array.
pub fn read_ids_text(read_ids: &Vec<String>) -> (t: String)
    ensures
        t@ == strings_json(views(read_ids@)),
        json_strings(t@) == Some(views(read_ids@)),
{
    match write_json_strings(read_ids) {
        Some(t) => t,
        None => String::new(),
    }
}

/// What reading the stored text gives: the ids of the list it holds, none
/// when it holds nothing readable.
pub open spec fn stored_read_set(text: Option<Seq<char>>) -> Set<Seq<char>> {
    match text {
        Some(t) => match json_strings(t) {
            Some(l) => l.to_set(),
            None => Set::<Seq<char>>::empty(),
        },
        None => Set::<Seq<char>>::empty(),
    }
}

/// Reading back the text written for a list of read ids gives the same ids
/// marked read.
pub proof fn law_read_marks_round_trip(read_ids: Seq<String>, text: Seq<char>)
    requires
        json_strings(text) == Some(views(read_ids)),
    ensures
        stored_read_set(Some(text)) == read_set(read_ids),
{
    assert(views(read_ids).to_set() =~= read_set(read_ids)) by {
        assert forall|x: Seq<char>| read_set(read_ids).contains(x) implies views(read_ids).to_set().contains(x) by {
            let k = choose|k: int| 0 <= k < read_ids.len() && (#[trigger] read_ids[k])@ == x;
            assert(views(read_ids)[k] == x);
        }
        assert forall|x: Seq<char>| views(read_ids).to_set().contains(x) implies read_set(read_ids).contains(x) by {
            let k = choose|k: int| 0 <= k < views(read_ids).len() && views(read_ids)[k] == x;
            assert(read_ids[k]@ == x);
        }
    }
}

} // verus!
