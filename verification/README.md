# pstream_frontend

The decision logic of the Pstream web front end (a streaming catalogue in the
browser), written in Verus: every function states what it returns in a
contract, and Verus proves the body meets it.

## Layout

- `src/` — the verified library.
  - `text` — string helpers (case-insensitive comparison, search,
    trimming, decimal rendering) and the few standard-library calls the
    rest relies on.
  - `rows`, `hover_card`, `my_list`, `links` — content rows (paged feed
    without repeated titles, carousel geometry, page dots, top-ten ranks),
    a card's hover popup, the "My List" toggle, routes and image URLs.
  - `movie_card_popup`, `info_modal`, `maturity_badge`, `hero`,
    `episodes`, `buttons` — what the cards, the details modal and the hero
    banner show: vibe tags, certifications, metadata lines, batched lists,
    button styling.
  - `playback`, `player`, `clock` — when trailers play (idle delay, scroll
    and tab visibility, modal hand-off), how the trailer player answers the
    YouTube iframe's messages and its safety timer, keyboard shortcuts, the
    YouTube message protocol, time captions.
  - `navigation`, `sub_nav`, `search_box`, `notifications`, `profiles` —
    navbars, genre menus, live search, the notification bell, viewer
    profiles and the PIN pad.
- `tests/` — executable tests of the library.
- `app/` — browser glue that is not verified: local storage, timers, the
  YouTube iframe and HLS.js bridges, and the floating-point measures of the
  DOM (vote averages, playback times, element boxes) turned into the
  library's integer and boolean inputs.

State machines (`RowFeed`, `HoverCard`, `HeroTrailer`, `HandOff`,
`ModalBanner`, `TabState`, `TrailerState`, `SearchBox`, `PinPad`) take an
event and return the next state and the effects to carry out; the hosts in
`app/hosts.rs`, `app/widgets.rs`, `app/player_host.rs` and `app/gate.rs`
perform those effects. Where a state has an invariant, its fields are
private and the invariant is a type invariant; contracts speak of its
view. Properties
that span several calls are stated as `law_*` proof functions next to the
code they are about.
