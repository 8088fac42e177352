use shared_tier_list::object_id::ObjectId;
use shared_tier_list::ws_types::{
    decode_client_message, parse_client_message, ClientMessage, ProjectContentsResponse,
};

const HEX: &str = "507f1f77bcf86cd799439011";

fn some(s: &str) -> Option<String> {
    Some(s.to_string())
}

#[test]
fn parses_open_project() {
    let frame = "{\"action\":\"open_project\",\"project_id\":\"507f1f77bcf86cd799439011\"}";
    assert_eq!(
        parse_client_message(frame),
        Some(ClientMessage::OpenProject { project_id: ObjectId::parse_str(HEX).unwrap() })
    );
}

#[test]
fn parses_edit_project() {
    let frame = "{\"action\":\"edit_project\",\"tier_container_html\":\"<div>S</div>\",\"image_carousel_html\":\"<img>\"}";
    assert_eq!(
        parse_client_message(frame),
        Some(ClientMessage::EditProject {
            tier_container_html: "<div>S</div>".to_string(),
            image_carousel_html: "<img>".to_string(),
        })
    );
}

#[test]
fn parses_members_in_any_order_and_ignores_others() {
    let frame = "{\"image_carousel_html\":\"c\",\"extra\":[1,2],\"tier_container_html\":\"t\",\"action\":\"edit_project\"}";
    assert_eq!(
        parse_client_message(frame),
        Some(ClientMessage::EditProject {
            tier_container_html: "t".to_string(),
            image_carousel_html: "c".to_string(),
        })
    );
}

#[test]
fn parses_escapes_in_markup() {
    let frame = "{\"action\":\"edit_project\",\"tier_container_html\":\"a\\\"b\\n\",\"image_carousel_html\":\"\\u00e9\"}";
    assert_eq!(
        parse_client_message(frame),
        Some(ClientMessage::EditProject {
            tier_container_html: "a\"b\n".to_string(),
            image_carousel_html: "é".to_string(),
        })
    );
}

#[test]
fn refuses_text_that_is_not_json() {
    assert_eq!(parse_client_message(""), None);
    assert_eq!(parse_client_message("open_project"), None);
    assert_eq!(parse_client_message("{\"action\":\"open_project\""), None);
}

#[test]
fn refuses_json_that_is_no_object() {
    assert_eq!(parse_client_message("[\"open_project\"]"), None);
    assert_eq!(parse_client_message("\"open_project\""), None);
    assert_eq!(parse_client_message("null"), None);
}

#[test]
fn refuses_missing_or_unknown_action() {
    assert_eq!(parse_client_message("{}"), None);
    assert_eq!(parse_client_message("{\"project_id\":\"507f1f77bcf86cd799439011\"}"), None);
    assert_eq!(
        parse_client_message("{\"action\":\"close_project\",\"project_id\":\"507f1f77bcf86cd799439011\"}"),
        None
    );
    assert_eq!(
        parse_client_message("{\"action\":\"OpenProject\",\"project_id\":\"507f1f77bcf86cd799439011\"}"),
        None
    );
    assert_eq!(parse_client_message("{\"action\":7}"), None);
}

#[test]
fn refuses_open_without_a_proper_project_id() {
    assert_eq!(parse_client_message("{\"action\":\"open_project\"}"), None);
    assert_eq!(parse_client_message("{\"action\":\"open_project\",\"project_id\":\"xyz\"}"), None);
    assert_eq!(parse_client_message("{\"action\":\"open_project\",\"project_id\":12}"), None);
    assert_eq!(
        parse_client_message("{\"action\":\"open_project\",\"project_id\":\"507f1f77bcf86cd79943901\"}"),
        None
    );
}

#[test]
fn refuses_edit_without_both_pieces_of_markup() {
    assert_eq!(
        parse_client_message("{\"action\":\"edit_project\",\"tier_container_html\":\"t\"}"),
        None
    );
    assert_eq!(
        parse_client_message("{\"action\":\"edit_project\",\"image_carousel_html\":\"c\"}"),
        None
    );
    assert_eq!(
        parse_client_message(
            "{\"action\":\"edit_project\",\"tier_container_html\":\"t\",\"image_carousel_html\":null}"
        ),
        None
    );
}

#[test]
fn decode_open_project() {
    assert_eq!(
        decode_client_message(some("open_project"), some(HEX), None, None),
        Some(ClientMessage::OpenProject { project_id: ObjectId::parse_str(HEX).unwrap() })
    );
    assert_eq!(
        decode_client_message(some("open_project"), some(HEX), some("t"), some("c")),
        Some(ClientMessage::OpenProject { project_id: ObjectId::parse_str(HEX).unwrap() })
    );
}

#[test]
fn decode_edit_project() {
    assert_eq!(
        decode_client_message(some("edit_project"), None, some("t"), some("c")),
        Some(ClientMessage::EditProject {
            tier_container_html: "t".to_string(),
            image_carousel_html: "c".to_string(),
        })
    );
    assert_eq!(
        decode_client_message(some("edit_project"), some("not an id"), some(""), some("")),
        Some(ClientMessage::EditProject {
            tier_container_html: String::new(),
            image_carousel_html: String::new(),
        })
    );
}

#[test]
fn decode_refuses_what_spells_no_message() {
    assert_eq!(decode_client_message(None, some(HEX), some("t"), some("c")), None);
    assert_eq!(decode_client_message(some(""), some(HEX), some("t"), some("c")), None);
    assert_eq!(decode_client_message(some("open_project"), None, some("t"), some("c")), None);
    assert_eq!(decode_client_message(some("open_project"), some("123"), None, None), None);
    assert_eq!(decode_client_message(some("edit_project"), some(HEX), None, some("c")), None);
    assert_eq!(decode_client_message(some("edit_project"), some(HEX), some("t"), None), None);
}

#[test]
fn frame_carries_both_pieces_of_markup() {
    let contents = ProjectContentsResponse {
        tier_container_html: "<div class=\"tier\">S</div>".to_string(),
        image_carousel_html: "<img src='a.png'>\n".to_string(),
    };
    let frame = contents.to_frame();
    let value = serde_json::from_str::<serde_json::Value>(&frame).unwrap();
    let members = value.as_object().unwrap();
    assert_eq!(members.len(), 2);
    assert_eq!(members["tier_container_html"].as_str(), Some("<div class=\"tier\">S</div>"));
    assert_eq!(members["image_carousel_html"].as_str(), Some("<img src='a.png'>\n"));
}

#[test]
fn frame_of_simple_contents() {
    let contents = ProjectContentsResponse {
        tier_container_html: "t".to_string(),
        image_carousel_html: "c".to_string(),
    };
    assert_eq!(
        contents.to_frame(),
        "{\"image_carousel_html\":\"c\",\"tier_container_html\":\"t\"}"
    );
}

#[test]
fn clone_keeps_contents() {
    let contents = ProjectContentsResponse {
        tier_container_html: "t".to_string(),
        image_carousel_html: "c".to_string(),
    };
    assert_eq!(contents.clone(), contents);
}
