use funky::assets::StaticAsset;
use funky::auth::TokenData;
use funky::error::FunkyError;
use funky::login::{logout_reply, token_cookie_name};
use funky::reply::Reply;
use funky::tags::{
    begin_new_tag, game_created, tag_inserted, tags_form_view, NewGameTemplate, NewGamertag,
    TagAction, TagsFormView,
};
use funky::utils::{FormMessage, HtmlTemplate};

fn text_of(r: &Reply) -> (u16, String) {
    match r {
        Reply::Text { status, body } => (*status, body.clone()),
        _ => panic!("not a text reply"),
    }
}

fn html_of(r: &Reply) -> (u16, String) {
    match r {
        Reply::Html { status, body } => (*status, body.clone()),
        _ => panic!("not an html reply"),
    }
}

fn failure_text(a: &TagAction) -> String {
    match a {
        TagAction::Finish(FormMessage::Failure(m)) => m.to_string(),
        _ => panic!("not a failure"),
    }
}

#[test]
fn form_messages_as_html() {
    assert_eq!(
        FormMessage::Success("Name added !").to_html(),
        "<div class=\"form-msg form-msg--success\" hx-on:htmx:load=\"location.reload()\">Name added !</div>"
    );
    assert_eq!(
        FormMessage::Failure("nope").to_html(),
        "<div class=\"form-msg form-msg--error\">nope</div>"
    );
    let r = FormMessage::Failure("").reply();
    assert_eq!(html_of(&r), (200, "<div class=\"form-msg form-msg--error\"></div>".to_string()));
}

#[test]
fn template_replies() {
    let t = HtmlTemplate(());
    assert_eq!(html_of(&t.reply(Ok("<p>hi</p>".to_string()))), (200, "<p>hi</p>".to_string()));
    assert_eq!(
        text_of(&t.reply(Err("missing field".to_string()))),
        (500, "Failed to render template. Error: missing field".to_string())
    );
}

#[test]
fn error_replies_and_descriptions() {
    let db = FunkyError::DatabaseError("disk full".to_string());
    assert_eq!(text_of(&db.reply()), (500, "The server encountered an error".to_string()));
    assert_eq!(db.describe(), "An error occured with the database: disk full");
    let un = FunkyError::Unauthorized;
    assert_eq!(text_of(&un.reply()), (401, "You are not authorized to do this".to_string()));
    assert_eq!(un.describe(), "You are not allowed to do this");
    assert_eq!(un.reply().status(), 401);
}

#[test]
fn asset_found_gets_its_media_type() {
    let r = StaticAsset("style.css".to_string()).reply(Some(vec![1, 2, 3]));
    match r {
        Reply::File { content_type, data } => {
            assert_eq!(content_type, "text/css");
            assert_eq!(data, vec![1, 2, 3]);
        }
        _ => panic!("not a file"),
    }
    match StaticAsset("app.js".to_string()).reply(Some(vec![])) {
        Reply::File { content_type, .. } => assert_eq!(content_type, "text/javascript"),
        _ => panic!("not a file"),
    }
}

#[test]
fn asset_of_unknown_kind_is_octet_stream() {
    match StaticAsset("blob.zzqx".to_string()).reply(Some(vec![9])) {
        Reply::File { content_type, .. } => assert_eq!(content_type, "application/octet-stream"),
        _ => panic!("not a file"),
    }
}

#[test]
fn missing_asset_is_404() {
    let r = StaticAsset("nothing.png".to_string()).reply(None);
    assert_eq!(text_of(&r), (404, "404 Not Found".to_string()));
    assert_eq!(r.status(), 404);
}

#[test]
fn logout_reloads() {
    assert_eq!(
        html_of(&logout_reply()),
        (200, "<div hx-on:htmx:load=\"location.reload()\"></div>".to_string())
    );
    assert_eq!(token_cookie_name(), "token");
}

#[test]
fn tags_form_views() {
    assert!(matches!(tags_form_view(None), TagsFormView::Form));
    assert!(matches!(tags_form_view(Some("new")), TagsFormView::NewGame));
    assert!(matches!(tags_form_view(Some("3")), TagsFormView::PickGame));
    assert!(matches!(tags_form_view(Some("")), TagsFormView::PickGame));
    assert!(matches!(tags_form_view(Some("New")), TagsFormView::PickGame));
}

#[test]
fn new_game_field() {
    let t = NewGameTemplate::creating();
    assert!(t.new);
    assert!(t.games.is_empty());
}

#[test]
fn picking_marks_the_chosen_game() {
    let rows = vec![(1, "Quake".to_string()), (12, "Doom".to_string()), (-2, "Odd".to_string())];
    let t = NewGameTemplate::picking("12", rows);
    assert!(!t.new);
    let got: Vec<(i64, String, bool)> =
        t.games.iter().map(|g| (g.id, g.name.clone(), g.selected)).collect();
    assert_eq!(
        got,
        vec![
            (1, "Quake".to_string(), false),
            (12, "Doom".to_string(), true),
            (-2, "Odd".to_string(), false)
        ]
    );
    let t = NewGameTemplate::picking("-2", vec![(-2, "Odd".to_string())]);
    assert!(t.games[0].selected);
    let t = NewGameTemplate::picking("012", vec![(12, "Doom".to_string())]);
    assert!(!t.games[0].selected);
}

fn body(game: Option<i64>, newgame: Option<&str>) -> NewGamertag {
    NewGamertag { gamertag: "xX_lad_Xx".to_string(), game, newgame: newgame.map(|s| s.to_string()) }
}

#[test]
fn new_tag_needs_a_login() {
    let a = begin_new_tag(None, body(Some(1), None));
    assert_eq!(failure_text(&a), "You are not authorized to add new tags :p");
}

#[test]
fn new_tag_for_a_known_game() {
    match begin_new_tag(Some(TokenData { user_id: 4 }), body(Some(9), None)) {
        TagAction::InsertTag { gamertag, poster, game } => {
            assert_eq!((gamertag.as_str(), poster, game), ("xX_lad_Xx", 4, 9));
        }
        _ => panic!("expected an insert"),
    }
}

#[test]
fn new_tag_for_a_new_game() {
    match begin_new_tag(Some(TokenData { user_id: 4 }), body(None, Some("Tetris"))) {
        TagAction::CreateGame { name, gamertag, poster } => {
            assert_eq!((name.as_str(), gamertag.as_str(), poster), ("Tetris", "xX_lad_Xx", 4));
        }
        _ => panic!("expected a new game"),
    }
}

#[test]
fn new_tag_malformed_requests() {
    let both = begin_new_tag(Some(TokenData { user_id: 4 }), body(Some(1), Some("Tetris")));
    assert_eq!(failure_text(&both), "Malformed request");
    let neither = begin_new_tag(Some(TokenData { user_id: 4 }), body(None, None));
    assert_eq!(failure_text(&neither), "Malformed request");
}

#[test]
fn after_the_game_is_created() {
    match game_created("tag".to_string(), 2, Some(31)) {
        TagAction::InsertTag { gamertag, poster, game } => {
            assert_eq!((gamertag.as_str(), poster, game), ("tag", 2, 31));
        }
        _ => panic!("expected an insert"),
    }
    assert_eq!(failure_text(&game_created("tag".to_string(), 2, None)), "An error occured :c");
}

#[test]
fn after_the_tag_is_inserted() {
    assert!(matches!(tag_inserted(true), FormMessage::Success("Name added !")));
    assert!(matches!(tag_inserted(false), FormMessage::Failure("An error occured :c")));
}
