//! The routes and labels the interface builds for a title: where its play
//! button leads, its artwork URL, the ids of its cards, and the short
//! season/episode and rank captions.

use vstd::prelude::*;
use vstd::string::*;
use crate::text::{decimal, decimal_pad2, has_prefix, push_char, push_decimal, push_decimal_pad2, str_starts_with, string_of};

verus! {

/// The decimal rendering of a `u32`.
pub open spec fn dec(n: u32) -> Seq<char> {
    decimal(n as nat)
}

/// Where the play button of a title leads: a TV title with a known season
/// and episode opens that episode, any other TV title opens the series, a
/// film opens the film.
pub open spec fn watch_route(id: u32, is_tv: bool, season: Option<u32>, episode: Option<u32>) -> Seq<char> {
    if is_tv {
        if season is Some && episode is Some {
            "/watch/tv/"@ + dec(id) + "?season="@ + dec(season->0) + "&episode="@ + dec(episode->0)
        } else {
            "/watch/tv/"@ + dec(id)
        }
    } else {
        "/watch/movie/"@ + dec(id)
    }
}

/// The route that plays a title, resuming at the season and episode of its
/// watch record when the record has both.
pub fn watch_url(id: u32, is_tv: bool, season: Option<u32>, episode: Option<u32>) -> (url: String)
    ensures
        url@ == watch_route(id, is_tv, season, episode),
{
    let mut url: String;
    if is_tv {
        url = string_of("/watch/tv/");
        push_decimal(&mut url, id as u64);
        match (season, episode) {
            (Some(s), Some(e)) => {
                url.append("?season=");
                push_decimal(&mut url, s as u64);
                url.append("&episode=");
                push_decimal(&mut url, e as u64);
            },
            _ => {},
        }
    } else {
        url = string_of("/watch/movie/");
        push_decimal(&mut url, id as u64);
    }
    url
}

/// Where the info modal's play button leads: for a series, the recorded
/// episode when both season and episode are known, else episode 1 of the
/// season picked in the modal; for a film, the film.
pub open spec fn modal_watch_route(
    id: u32,
    is_tv: bool,
    season: Option<u32>,
    episode: Option<u32>,
    selected_season: u32,
) -> Seq<char> {
    if is_tv && !(season is Some && episode is Some) {
        "/watch/tv/"@ + dec(id) + "?season="@ + dec(selected_season) + "&episode=1"@
    } else {
        watch_route(id, is_tv, season, episode)
    }
}

/// The info modal's play route.
pub fn modal_watch_url(
    id: u32,
    is_tv: bool,
    season: Option<u32>,
    episode: Option<u32>,
    selected_season: u32,
) -> (url: String)
    ensures
        url@ == modal_watch_route(id, is_tv, season, episode, selected_season),
{
    if is_tv && !(season.is_some() && episode.is_some()) {
        let mut url = string_of("/watch/tv/");
        push_decimal(&mut url, id as u64);
        url.append("?season=");
        push_decimal(&mut url, selected_season as u64);
        url.append("&episode=1");
        url
    } else {
        watch_url(id, is_tv, season, episode)
    }
}

/// An image path as a loadable URL: absolute `http…` URLs are kept, TMDB
/// paths get the CDN prefix for the given size (`"w780"`, `"original"`, …).
pub open spec fn tmdb_image(path: Seq<char>, size: Seq<char>) -> Seq<char> {
    if has_prefix(path, "http"@) {
        path
    } else {
        "https://image.tmdb.org/t/p/"@ + size + path
    }
}

/// The URL of a TMDB image path at the given size.
pub fn tmdb_image_url(path: &str, size: &str) -> (url: String)
    ensures
        url@ == tmdb_image(path@, size@),
{
    if str_starts_with(path, "http") {
        string_of(path)
    } else {
        let mut url = string_of("https://image.tmdb.org/t/p/");
        url.append(size);
        url.append(path);
        url
    }
}

/// The backdrop of a spotlight card: absolute URLs kept, TMDB paths at
/// `w780`, and nothing for an empty path.
pub fn spotlight_backdrop_url(path: &str) -> (url: String)
    ensures
        url@ == (if has_prefix(path@, "http"@) {
            path@
        } else if path@.len() > 0 {
            tmdb_image(path@, "w780"@)
        } else {
            Seq::<char>::empty()
        }),
{
    if str_starts_with(path, "http") {
        string_of(path)
    } else if path.unicode_len() > 0 {
        tmdb_image_url(path, "w780")
    } else {
        String::new()
    }
}

/// The media kind word of a title.
pub open spec fn kind_word(is_tv: bool) -> Seq<char> {
    if is_tv {
        "tv"@
    } else {
        "movie"@
    }
}

/// The id of a row card, `"<kind>-<id>"`; the Top 10 row prefixes `"topten-"`.
pub fn card_id(is_tv: bool, id: u32, top_ten: bool) -> (s: String)
    ensures
        s@ == (if top_ten {
            "topten-"@
        } else {
            Seq::<char>::empty()
        }) + kind_word(is_tv) + "-"@ + dec(id),
{
    let mut s = if top_ten {
        string_of("topten-")
    } else {
        String::new()
    };
    if is_tv {
        s.append("tv");
    } else {
        s.append("movie");
    }
    s.append("-");
    push_decimal(&mut s, id as u64);
    s
}

/// The `S<season>:E<episode>` caption of a series entry, when both are known.
pub fn episode_badge(is_tv: bool, season: Option<u32>, episode: Option<u32>) -> (b: Option<String>)
    ensures
        b is Some <==> (is_tv && season is Some && episode is Some),
        b is Some ==> b->0@ == "S"@ + dec(season->0) + ":E"@ + dec(episode->0),
{
    if is_tv {
        match (season, episode) {
            (Some(s), Some(e)) => {
                let mut b = string_of("S");
                push_decimal(&mut b, s as u64);
                b.append(":E");
                push_decimal(&mut b, e as u64);
                Some(b)
            },
            _ => None,
        }
    } else {
        None
    }
}

/// The rank printed on a spotlight card, zero-padded to two digits.
pub fn formatted_rank(rank: Option<usize>) -> (s: Option<String>)
    ensures
        s is Some <==> rank is Some,
        s is Some ==> s->0@ == decimal_pad2(rank->0 as nat),
{
    match rank {
        Some(r) => {
            let mut s = String::new();
            push_decimal_pad2(&mut s, r as u64);
            Some(s)
        },
        None => None,
    }
}

/// The (season, episode) that "next episode" plays: the episode after the
/// current one, season and episode defaulting to 1.
pub fn next_episode(season: Option<u32>, episode: Option<u32>) -> (se: (u32, u32))
    requires
        episode is Some ==> episode->0 < u32::MAX,
    ensures
        se.0 == (match season {
            Some(s) => s,
            None => 1,
        }),
        se.1 == (match episode {
            Some(e) => e + 1,
            None => 2,
        }),
{
    let s = match season {
        Some(s) => s,
        None => 1,
    };
    let e = match episode {
        Some(e) => e + 1,
        None => 2,
    };
    (s, e)
}

/// The caption above the player's title: `S<s>:E<e> "<episode title>"` for
/// a series (season and episode defaulting to 1, the title to `Episode`),
/// the release year (or nothing) for a film.
pub fn player_subtitle(
    is_tv: bool,
    season: Option<u32>,
    episode: Option<u32>,
    episode_title: Option<&str>,
    year: Option<&str>,
) -> (s: String)
    ensures
        s@ == (if is_tv {
            "S"@ + dec(
                match season {
                    Some(x) => x,
                    None => 1,
                },
            ) + ":E"@ + dec(
                match episode {
                    Some(x) => x,
                    None => 1,
                },
            ) + " \""@ + (match episode_title {
                Some(t) => t@,
                None => "Episode"@,
            }) + "\""@
        } else {
            match year {
                Some(y) => y@,
                None => Seq::<char>::empty(),
            }
        }),
{
    if is_tv {
        let mut s = string_of("S");
        push_decimal(
            &mut s,
            match season {
                Some(x) => x,
                None => 1,
            } as u64,
        );
        s.append(":E");
        push_decimal(
            &mut s,
            match episode {
                Some(x) => x,
                None => 1,
            } as u64,
        );
        s.append(" \"");
        match episode_title {
            Some(t) => s.append(t),
            None => s.append("Episode"),
        }
        push_char(&mut s, '"');
        proof {
            reveal_strlit("\"");
        }
        s
    } else {
        match year {
            Some(y) => string_of(y),
            None => String::new(),
        }
    }
}

/// The first four chars of a date (`"2024-05-01"` gives `"2024"`), or all of
/// it when shorter.
pub fn year_of(date: &str) -> (y: String)
    ensures
        y@ == (if date@.len() <= 4 {
            date@
        } else {
            date@.take(4)
        }),
{
    let n = date.unicode_len();
    if n <= 4 {
        string_of(date)
    } else {
        string_of(date.substring_char(0, 4))
    }
}

/// The image of the first path present, as a URL at the given size.
pub open spec fn first_image(first: Option<Seq<char>>, second: Option<Seq<char>>, size: Seq<char>) -> Option<
    Seq<char>,
> {
    match first {
        Some(p) => Some(tmdb_image(p, size)),
        None => match second {
            Some(p) => Some(tmdb_image(p, size)),
            None => None,
        },
    }
}

/// The URL of the first of two image paths that is present (a backdrop
/// before a poster, or the other way round).
pub fn image_of(first: Option<&str>, second: Option<&str>, size: &str) -> (url: Option<String>)
    ensures
        match url {
            Some(u) => first_image(
                match first {
                    Some(p) => Some(p@),
                    None => None,
                },
                match second {
                    Some(p) => Some(p@),
                    None => None,
                },
                size@,
            ) == Some(u@),
            None => first is None && second is None,
        },
{
    match first {
        Some(p) => Some(tmdb_image_url(p, size)),
        None => match second {
            Some(p) => Some(tmdb_image_url(p, size)),
            None => None,
        },
    }
}

/// The artwork of a row card: its backdrop when it has one, else its poster,
/// else nothing.
pub fn card_image(backdrop: &str, poster: Option<&str>) -> (s: String)
    ensures
        s@ == (if backdrop@.len() > 0 {
            backdrop@
        } else {
            match poster {
                Some(p) => p@,
                None => Seq::<char>::empty(),
            }
        }),
{
    if backdrop.unicode_len() > 0 {
        string_of(backdrop)
    } else {
        match poster {
            Some(p) => string_of(p),
            None => String::new(),
        }
    }
}

/// The release line of an upcoming title on a spotlight card,
/// `"Coming <date>"`, shown only for upcoming titles with a date.
pub fn coming_soon_label(is_coming_soon: bool, release_date: Option<&str>) -> (s: Option<String>)
    ensures
        match s {
            Some(t) => is_coming_soon && release_date is Some && release_date->0@.len() > 0 && t@ == "Coming "@
                + release_date->0@,
            None => !is_coming_soon || release_date is None || release_date->0@.len() == 0,
        },
{
    match release_date {
        Some(d) => {
            if is_coming_soon && d.unicode_len() > 0 {
                let mut t = string_of("Coming ");
                t.append(d);
                Some(t)
            } else {
                None
            }
        },
        None => None,
    }
}

} // verus!
