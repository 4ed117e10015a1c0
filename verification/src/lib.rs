//! Decision, formatting and bookkeeping logic of the Pstream web front end,
//! with each function's behaviour stated as a contract and proved.

pub mod text;
pub mod movie_card_popup;
pub mod maturity_badge;
pub mod links;
pub mod info_modal;
pub mod profiles;
pub mod notifications;
pub mod clock;
pub mod player;
pub mod navigation;
pub mod rows;
pub mod hover_card;
pub mod sub_nav;
pub mod my_list;
pub mod hero;
pub mod playback;
pub mod episodes;
pub mod buttons;
pub mod search_box;
