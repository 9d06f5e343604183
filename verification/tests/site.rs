use pixu::id30::Id30;
use pixu::media_type::MediaType;
use pixu::resource::{Renderer, Response, Status};
use pixu::site::{
    canonicalize_id30, cookie_names, guard_of, lookup, moved_permanently, not_found, Guard, Target,
};

fn html() -> MediaType {
    MediaType::new("text", "html", vec!["charset=utf-8".to_string()])
}

fn id(text: &str) -> Id30 {
    Id30::from_str(text).unwrap()
}

#[test]
fn not_found_is_404() {
    let response = not_found();
    assert_eq!(response.status, Status::NotFound);
    assert_eq!(response.representations, vec![(html(), Renderer::Text("Not found!\n".to_string()))]);
    assert!(response.cookies.is_empty());
}

#[test]
fn moved_permanently_names_its_target() {
    let response = moved_permanently("abcdef".to_string());
    assert_eq!(response.status, Status::MovedPermanently("abcdef".to_string()));
    assert_eq!(
        response.representations,
        vec![(html(), Renderer::Text("Moved permanently to abcdef\n".to_string()))]
    );
}

#[test]
fn canonical_spelling_is_served() {
    assert_eq!(canonicalize_id30("abcdef"), Ok(id("abcdef")));
    assert_eq!(canonicalize_id30("000000"), Ok(Id30::from(0)));
    assert_eq!(lookup("abcdef"), Ok(Target::Series(id("abcdef"))));
    assert_eq!(lookup("thumb/abcdef"), Ok(Target::Thumbnail(id("abcdef"))));
    assert_eq!(lookup("img/abcdef"), Ok(Target::Image(id("abcdef"))));
}

#[test]
fn other_spelling_is_redirected_to_the_canonical_one() {
    let moved: Result<Target, Response> = Err(moved_permanently("abcdef".to_string()));
    assert_eq!(canonicalize_id30("ABCDEF"), Err(moved_permanently("abcdef".to_string())));
    assert_eq!(canonicalize_id30("AbCdEf"), Err(moved_permanently("abcdef".to_string())));
    assert_eq!(canonicalize_id30("9HJKmn"), Err(moved_permanently("9hjkmn".to_string())));
    assert_eq!(lookup("ABCDEF"), moved);
    assert_eq!(lookup("thumb/aBcdef"), moved);
    assert_eq!(lookup("img/abcdeF"), moved);
}

#[test]
fn undecodable_text_is_404() {
    let missing: Result<Target, Response> = Err(not_found());
    assert_eq!(canonicalize_id30("uuuuuu"), Err(not_found()));
    assert_eq!(canonicalize_id30("abcde"), Err(not_found()));
    assert_eq!(canonicalize_id30("abc-ef"), Err(not_found()));
    assert_eq!(lookup("uuuuuu"), missing);
    assert_eq!(lookup("abcdeU"), missing);
    assert_eq!(lookup("thumb/uuuuuu"), missing);
    assert_eq!(lookup("img/uuuuuu"), missing);
    assert_eq!(lookup("uuuuuu/meta"), missing);
    assert_eq!(lookup("uuuuuu/edit"), missing);
    // Letters that a base-32 reader would take for digits name nothing.
    assert_eq!(canonicalize_id30("oil000"), Err(not_found()));
    assert_eq!(canonicalize_id30("iiiiii"), Err(not_found()));
    assert_eq!(lookup("iiiiii"), missing);
    assert_eq!(lookup("OOOOOO"), missing);
    assert_eq!(lookup("thumb/llllll"), missing);
    assert_eq!(lookup("img/abcdeo"), missing);
    assert_eq!(lookup("abcdei/meta"), missing);
    assert_eq!(lookup("Labcde/edit"), missing);
}

#[test]
fn meta_and_edit_take_any_spelling() {
    assert_eq!(lookup("abcdef/meta"), Ok(Target::PixurMeta(id("abcdef"))));
    assert_eq!(lookup("ABCDEF/meta"), Ok(Target::PixurMeta(id("abcdef"))));
    assert_eq!(lookup("abcdef/edit"), Ok(Target::SeriesEdit(id("abcdef"))));
    assert_eq!(lookup("AbCdEf/edit"), Ok(Target::SeriesEdit(id("abcdef"))));
}

#[test]
fn fixed_paths_name_their_targets() {
    assert_eq!(lookup(""), Ok(Target::Index));
    assert_eq!(lookup("style.css"), Ok(Target::StyleSheet));
    assert_eq!(lookup("ingest.js"), Ok(Target::IngestScript));
    assert_eq!(lookup("viewer.js"), Ok(Target::ViewerScript));
    assert_eq!(lookup("initiate_auth"), Ok(Target::InitiateAuth));
    assert_eq!(lookup("verify_auth"), Ok(Target::VerifyAuth));
    assert_eq!(lookup("img/"), Ok(Target::Ingest));
}

#[test]
fn other_paths_name_nothing() {
    let missing: Result<Target, Response> = Err(not_found());
    for path in [
        "abcde",
        "abcdefg",
        "abc-ef",
        "abcdef/",
        "abcdef/metadata",
        "abcdef/META",
        "/abcdef",
        "styleXcss",
        "style.css/",
        "Style.css",
        "thumb/",
        "thumb/abcde",
        "thumb/abcdefg",
        "img",
        "img/abcdef/",
        "img/abc-ef",
        "verify_auth/",
        "initiate-auth",
        "unknown",
    ] {
        assert_eq!(lookup(path), missing, "{}", path);
    }
}

#[test]
fn six_letters_are_a_spelling_before_anything_else() {
    assert_eq!(lookup("viewer"), Err(not_found()));
    assert_eq!(lookup("Thanks"), Err(moved_permanently("thanks".to_string())));
}

#[test]
fn each_target_has_its_guard() {
    let id = id("abcdef");
    for target in [Target::StyleSheet, Target::IngestScript, Target::ViewerScript, Target::InitiateAuth] {
        assert_eq!(guard_of(&target), Guard::Open);
    }
    assert_eq!(guard_of(&Target::VerifyAuth), Guard::Link);
    assert_eq!(guard_of(&Target::Index), Guard::Claims);
    for target in [Target::Series(id), Target::Thumbnail(id), Target::Image(id)] {
        assert_eq!(guard_of(&target), Guard::View(id));
    }
    for target in [Target::PixurMeta(id), Target::SeriesEdit(id), Target::Ingest] {
        assert_eq!(guard_of(&target), Guard::Edit);
    }
    assert!(cookie_names(&Guard::Open).is_empty());
    for guard in [Guard::Link, Guard::Claims, Guard::View(id), Guard::Edit] {
        assert_eq!(cookie_names(&guard), vec!["let-me-in".to_string()]);
    }
}
