//! Listing gamer tags and adding new ones.
use vstd::prelude::*;

use crate::auth::TokenData;
use crate::text::{decimal, decimal_i64, lemma_decimal_injective};
use crate::utils::FormMessage;

verus! {

/// A gamer tag as listed: the name in the game, the lad who posted it and the
/// game.
pub struct Gamertag {
    pub username: String,
    pub ladname: String,
    pub gamename: String,
}

/// The page that lists the gamer tags.
pub struct TagsTemplate {
    pub tags: Vec<Gamertag>,
}

/// The form for a new gamer tag.
pub struct NewTagFormTemplate;

/// A game offered in the form, and whether it is the one picked.
pub struct Game {
    pub name: String,
    pub id: i64,
    pub selected: bool,
}

/// The game part of the form: a field for a new game, or a list of the known
/// ones.
pub struct NewGameTemplate {
    pub new: bool,
    pub games: Vec<Game>,
}

/// A new gamer tag as submitted: the tag, and either a known game's id or a
/// new game's name.
pub struct NewGamertag {
    pub gamertag: String,
    pub game: Option<i64>,
    pub newgame: Option<String>,
}

/// What the new-tag form shows, given its `game` query parameter.
pub enum TagsFormView {
    /// No parameter: the whole form.
    Form,
    /// `new`: a field for a new game.
    NewGame,
    /// Anything else: the known games, the one whose id is the parameter
    /// picked.
    PickGame,
}

/// Chooses what the new-tag form shows.
pub fn tags_form_view(game: Option<&str>) -> (r: TagsFormView)
    ensures
        match game {
            None => r is Form,
            Some(g) => if g@ == "new"@ {
                r is NewGame
            } else {
                r is PickGame
            },
        },
{
    match game {
        None => TagsFormView::Form,
        Some(g) => {
            if String::from_str(g) == String::from_str("new") {
                TagsFormView::NewGame
            } else {
                TagsFormView::PickGame
            }
        },
    }
}

impl NewGameTemplate {
    /// The field for a new game.
    pub fn creating() -> (r: NewGameTemplate)
        ensures
            r.new,
            r.games@.len() == 0,
    {
        NewGameTemplate { new: true, games: Vec::new() }
    }

    /// The known games `rows` (id, name), in their order, with the one whose
    /// id in decimal is `game` picked.
    pub fn picking(game: &str, rows: Vec<(i64, String)>) -> (r: NewGameTemplate)
        ensures
            !r.new,
            r.games@.len() == rows@.len(),
            forall|i: int|
                0 <= i < rows@.len() ==> {
                    &&& (#[trigger] r.games@[i]).id == rows@[i].0
                    &&& r.games@[i].name@ == rows@[i].1@
                    &&& r.games@[i].selected == (decimal(rows@[i].0 as int) == game@)
                },
            forall|i: int, j: int|
                0 <= i < rows@.len() && 0 <= j < rows@.len() && (#[trigger] r.games@[i]).selected
                    && (#[trigger] r.games@[j]).selected ==> rows@[i].0 == rows@[j].0,
    {
        let wanted = String::from_str(game);
        let mut games: Vec<Game> = Vec::new();
        let mut i: usize = 0;
        while i < rows.len()
            invariant
                i <= rows@.len(),
                wanted@ == game@,
                games@.len() == i,
                forall|k: int|
                    0 <= k < i ==> {
                        &&& (#[trigger] games@[k]).id == rows@[k].0
                        &&& games@[k].name@ == rows@[k].1@
                        &&& games@[k].selected == (decimal(rows@[k].0 as int) == game@)
                    },
            decreases rows@.len() - i,
        {
            let id = rows[i].0;
            let text = decimal_i64(id);
            games.push(Game { name: rows[i].1.clone(), id, selected: text == wanted });
            i = i + 1;
        }
        proof {
            assert forall|a: int, b: int|
                0 <= a < rows@.len() && 0 <= b < rows@.len() && (#[trigger] games@[a]).selected
                    && (#[trigger] games@[b]).selected implies rows@[a].0 == rows@[b].0 by {
                lemma_decimal_injective(rows@[a].0, rows@[b].0);
            }
        }
        NewGameTemplate { new: false, games }
    }
}

/// The next thing to do for a new gamer tag.
pub enum TagAction {
    /// Add the game `name`, then the tag under the game's new id.
    CreateGame { name: String, gamertag: String, poster: i64 },
    /// Add the tag `gamertag`, posted by `poster`, for the game `game`.
    InsertTag { gamertag: String, poster: i64, game: i64 },
    /// Answer with this message.
    Finish(FormMessage<'static>),
}

impl TagAction {
    /// Whether the action ends the request with a failure saying `text`.
    pub open spec fn fails_with(&self, text: Seq<char>) -> bool {
        self matches TagAction::Finish(m) && !m.is_success() && m.text() == text
    }
}

/// The first step for a submitted tag: who posts it (`None` where the login
/// token is missing or invalid) and which game it is for.
pub fn begin_new_tag(auth: Option<TokenData>, body: NewGamertag) -> (r: TagAction)
    ensures
        match auth {
            None => r.fails_with("You are not authorized to add new tags :p"@),
            Some(a) => match (body.newgame, body.game) {
                (Some(n), None) => r matches TagAction::CreateGame { name, gamertag, poster } && name@
                    == n@ && gamertag@ == body.gamertag@ && poster == a.user_id,
                (None, Some(g)) => r matches TagAction::InsertTag { gamertag, poster, game } && game
                    == g && gamertag@ == body.gamertag@ && poster == a.user_id,
                _ => r.fails_with("Malformed request"@),
            },
        },
{
    match auth {
        None => TagAction::Finish(FormMessage::Failure("You are not authorized to add new tags :p")),
        Some(a) => match (body.newgame, body.game) {
            (Some(n), None) => TagAction::CreateGame {
                name: n,
                gamertag: body.gamertag,
                poster: a.user_id,
            },
            (None, Some(g)) => TagAction::InsertTag {
                gamertag: body.gamertag,
                poster: a.user_id,
                game: g,
            },
            _ => TagAction::Finish(FormMessage::Failure("Malformed request")),
        },
    }
}

/// The step after adding a new game: `created` is its id, or `None` where the
/// database failed.
pub fn game_created(gamertag: String, poster: i64, created: Option<i64>) -> (r: TagAction)
    ensures
        match created {
            Some(id) => r matches TagAction::InsertTag { gamertag: t, poster: p, game } && t@
                == gamertag@ && p == poster && game == id,
            None => r.fails_with("An error occured :c"@),
        },
{
    match created {
        Some(id) => TagAction::InsertTag { gamertag, poster, game: id },
        None => TagAction::Finish(FormMessage::Failure("An error occured :c")),
    }
}

/// The answer once the tag was added (`inserted`) or the database failed.
pub fn tag_inserted(inserted: bool) -> (r: FormMessage<'static>)
    ensures
        r.is_success() == inserted,
        inserted ==> r.text() == "Name added !"@,
        !inserted ==> r.text() == "An error occured :c"@,
{
    if inserted {
        FormMessage::Success("Name added !")
    } else {
        FormMessage::Failure("An error occured :c")
    }
}

} // verus!
