//! What the directory shows: a loading notice, or one card for each visible
//! record.

use crate::record::{User, UserView};
use crate::store::{DirectorySnapshot, DirectoryState};
use vstd::prelude::*;
use vstd::string::StringExecFns;

verus! {

/// The scheme that is put before a user's website to make a link of it.
pub const LINK_SCHEME: &'static str = "https://";

/// The texts of one card.
#[derive(Debug, PartialEq, Eq)]
pub struct Card {
    pub name: String,
    pub username: String,
    pub email: String,
    /// Name of the user's company.
    pub company: String,
    pub phone: String,
    /// The website as the record holds it: the text of the link.
    pub website: String,
    /// Target of the link: the website behind [`LINK_SCHEME`].
    pub link: String,
}

/// View of a [`Card`].
#[verifier::ext_equal]
pub struct CardView {
    pub name: Seq<char>,
    pub username: Seq<char>,
    pub email: Seq<char>,
    pub company: Seq<char>,
    pub phone: Seq<char>,
    pub website: Seq<char>,
    pub link: Seq<char>,
}

impl View for Card {
    type V = CardView;

    open spec fn view(&self) -> CardView {
        CardView {
            name: self.name@,
            username: self.username@,
            email: self.email@,
            company: self.company@,
            phone: self.phone@,
            website: self.website@,
            link: self.link@,
        }
    }
}

/// The card that shows a record.
pub open spec fn card_of(user: UserView) -> CardView {
    CardView {
        name: user.name,
        username: user.username,
        email: user.email,
        company: user.company.name,
        phone: user.phone,
        website: user.website,
        link: LINK_SCHEME@ + user.website,
    }
}

impl Card {
    /// Makes the card for `user`.
    pub fn from_user(user: &User) -> (card: Card)
        ensures
            card@ == card_of(user@),
    {
        Card {
            name: user.name.clone(),
            username: user.username.clone(),
            email: user.email.clone(),
            company: user.company.name.clone(),
            phone: user.phone.clone(),
            website: user.website.clone(),
            link: String::from_str(LINK_SCHEME).concat(user.website.as_str()),
        }
    }
}

/// What is drawn below the search field.
#[derive(Debug, PartialEq, Eq)]
pub enum Screen {
    /// The notice that the records are being loaded.
    Loading,
    /// The grid of cards, in the order of the records.
    Grid(Vec<Card>),
}

/// View of a [`Screen`].
#[verifier::ext_equal]
pub enum ScreenView {
    Loading,
    Grid(Seq<CardView>),
}

/// The views of a sequence of cards, in the same order.
pub open spec fn card_views(cards: Seq<Card>) -> Seq<CardView> {
    cards.map_values(|card: Card| card@)
}

impl View for Screen {
    type V = ScreenView;

    open spec fn view(&self) -> ScreenView {
        match self {
            Screen::Loading => ScreenView::Loading,
            Screen::Grid(cards) => ScreenView::Grid(card_views(cards@)),
        }
    }
}

/// The screen for a state: the loading notice while the fetch is under way,
/// afterwards the cards of the visible records.
pub open spec fn screen_of(state: DirectorySnapshot) -> ScreenView {
    if state.is_loading() {
        ScreenView::Loading
    } else {
        ScreenView::Grid(state.filtered_records().map_values(|user: UserView| card_of(user)))
    }
}

/// Computes what is to be drawn for `state`.
pub fn render(state: &DirectoryState) -> (screen: Screen)
    ensures
        screen@ == screen_of(state@),
{
    if state.is_loading() {
        return Screen::Loading;
    }
    let shown = state.filtered_records();
    let mut cards: Vec<Card> = Vec::new();
    let mut i: usize = 0;
    while i < shown.len()
        invariant
            i <= shown.len(),
            cards.len() == i,
            forall|k: int| 0 <= k < i ==> (#[trigger] cards[k])@ == card_of(shown[k]@),
        decreases shown.len() - i,
    {
        cards.push(Card::from_user(shown[i]));
        i += 1;
    }
    assert(card_views(cards@) =~= state@.filtered_records().map_values(
        |user: UserView| card_of(user),
    ));
    Screen::Grid(cards)
}

} // verus!
