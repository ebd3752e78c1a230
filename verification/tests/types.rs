use trsync::types::{ContentType, RemoteEventType};

#[test]
fn content_type_from_str_known_names() {
    assert_eq!(ContentType::from_str("file"), Some(ContentType::File));
    assert_eq!(ContentType::from_str("html-document"), Some(ContentType::HtmlDocument));
    assert_eq!(ContentType::from_str("folder"), Some(ContentType::Folder));
}

#[test]
fn content_type_from_str_unknown_names() {
    assert_eq!(ContentType::from_str(""), None);
    assert_eq!(ContentType::from_str("File"), None);
    assert_eq!(ContentType::from_str("files"), None);
    assert_eq!(ContentType::from_str("fil"), None);
    assert_eq!(ContentType::from_str("html_document"), None);
    assert_eq!(ContentType::from_str("thread"), None);
}

#[test]
fn content_type_to_string_names() {
    assert_eq!(ContentType::File.to_string(), "file");
    assert_eq!(ContentType::HtmlDocument.to_string(), "html-document");
    assert_eq!(ContentType::Folder.to_string(), "folder");
}

#[test]
fn content_type_name_round_trip() {
    for c in [ContentType::File, ContentType::HtmlDocument, ContentType::Folder] {
        assert_eq!(ContentType::from_str(&c.to_string()), Some(c));
    }
}

#[test]
fn remote_event_type_from_str_table() {
    let cases = [
        ("content.modified.html-document", RemoteEventType::Modified),
        ("content.modified.file", RemoteEventType::Modified),
        ("content.modified.folder", RemoteEventType::Modified),
        ("content.created.html-document", RemoteEventType::Created),
        ("content.created.file", RemoteEventType::Created),
        ("content.created.folder", RemoteEventType::Created),
        ("content.deleted.html-document", RemoteEventType::Deleted),
        ("content.deleted.file", RemoteEventType::Deleted),
        ("content.deleted.folder", RemoteEventType::Deleted),
        ("content.undeleted.html-document", RemoteEventType::Created),
        ("content.undeleted.file", RemoteEventType::Created),
        ("content.undeleted.folder", RemoteEventType::Created),
    ];
    for (name, kind) in cases {
        assert_eq!(RemoteEventType::from_str(name), Some(kind), "{}", name);
    }
}

#[test]
fn remote_event_type_from_str_unknown() {
    assert_eq!(RemoteEventType::from_str(""), None);
    assert_eq!(RemoteEventType::from_str("content.modified"), None);
    assert_eq!(RemoteEventType::from_str("content.modified.thread"), None);
    assert_eq!(RemoteEventType::from_str("content.moved.file"), None);
    assert_eq!(RemoteEventType::from_str("user.modified"), None);
    assert_eq!(RemoteEventType::from_str("content.modified.file "), None);
}

#[test]
fn remote_event_names_built_from_actions_and_content_types() {
    let actions = [
        ("modified", RemoteEventType::Modified),
        ("created", RemoteEventType::Created),
        ("deleted", RemoteEventType::Deleted),
        ("undeleted", RemoteEventType::Created),
    ];
    for (action, kind) in actions {
        for c in [ContentType::File, ContentType::HtmlDocument, ContentType::Folder] {
            let name = format!("content.{}.{}", action, c.to_string());
            assert_eq!(RemoteEventType::from_str(&name), Some(kind));
        }
    }
}
