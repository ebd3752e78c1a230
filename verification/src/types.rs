use vstd::prelude::*;
use vstd::string::*;

verus! {

pub type RelativeFilePath = String;

pub type AbsoluteFilePath = String;

pub type ContentId = i32;

pub type LastModifiedTimestamp = i32;

pub type EventType = String;

/// Whether two strings hold the same characters.
fn str_equal(a: &str, b: &str) -> (r: bool)
    ensures
        r == (a@ == b@),
{
    let n: usize = a.unicode_len();
    if n != b.unicode_len() {
        return false;
    }
    let mut i: usize = 0;
    while i < n
        invariant
            n == a@.len(),
            n == b@.len(),
            i <= n,
            forall|j: int| 0 <= j < i ==> a@[j] == b@[j],
        decreases n - i,
    {
        if a.get_char(i) != b.get_char(i) {
            return false;
        }
        i = i + 1;
    }
    assert(a@ =~= b@);
    true
}

/// The kinds of content a Tracim workspace holds.
#[derive(Debug, Clone, Copy, PartialEq, Eq, Structural)]
pub enum ContentType {
    File,
    HtmlDocument,
    Folder,
}

impl ContentType {
    /// The name under which Tracim designates this kind of content.
    pub open spec fn name(self) -> Seq<char> {
        match self {
            ContentType::File => "file"@,
            ContentType::HtmlDocument => "html-document"@,
            ContentType::Folder => "folder"@,
        }
    }

    /// The kind of content that a Tracim name designates, if any.
    pub open spec fn from_name(s: Seq<char>) -> Option<ContentType> {
        if s == "file"@ {
            Some(ContentType::File)
        } else if s == "html-document"@ {
            Some(ContentType::HtmlDocument)
        } else if s == "folder"@ {
            Some(ContentType::Folder)
        } else {
            None
        }
    }

    pub fn from_str(str_: &str) -> (r: Option<Self>)
        ensures
            r == Self::from_name(str_@),
    {
        if str_equal(str_, "file") {
            Some(ContentType::File)
        } else if str_equal(str_, "html-document") {
            Some(ContentType::HtmlDocument)
        } else if str_equal(str_, "folder") {
            Some(ContentType::Folder)
        } else {
            None
        }
    }

    pub fn to_string(&self) -> (s: String)
        ensures
            s@ == self.name(),
    {
        match self {
            ContentType::File => "file".to_owned(),
            ContentType::HtmlDocument => "html-document".to_owned(),
            ContentType::Folder => "folder".to_owned(),
        }
    }
}

/// The kinds of events that Tracim reports about workspace contents.
#[derive(Debug, Clone, Copy, PartialEq, Eq, Structural)]
pub enum RemoteEventType {
    Created,
    Modified,
    Deleted,
}

impl RemoteEventType {
    /// The kind of event that an action word of Tracim denotes, if any;
    /// a content coming back from the trash counts as created.
    pub open spec fn from_action(action: Seq<char>) -> Option<RemoteEventType> {
        if action == "modified"@ {
            Some(RemoteEventType::Modified)
        } else if action == "created"@ || action == "undeleted"@ {
            Some(RemoteEventType::Created)
        } else if action == "deleted"@ {
            Some(RemoteEventType::Deleted)
        } else {
            None
        }
    }

    /// The Tracim event type that reports an action on a kind of content.
    pub open spec fn event_name(action: Seq<char>, c: ContentType) -> Seq<char> {
        "content."@ + action + "."@ + c.name()
    }

    /// The kind of a Tracim event type, if it is one about a content.
    pub open spec fn from_event_name(s: Seq<char>) -> Option<RemoteEventType> {
        if s == "content.modified.html-document"@ {
            Some(RemoteEventType::Modified)
        } else if s == "content.modified.file"@ {
            Some(RemoteEventType::Modified)
        } else if s == "content.modified.folder"@ {
            Some(RemoteEventType::Modified)
        } else if s == "content.created.html-document"@ {
            Some(RemoteEventType::Created)
        } else if s == "content.created.file"@ {
            Some(RemoteEventType::Created)
        } else if s == "content.created.folder"@ {
            Some(RemoteEventType::Created)
        } else if s == "content.deleted.html-document"@ {
            Some(RemoteEventType::Deleted)
        } else if s == "content.deleted.file"@ {
            Some(RemoteEventType::Deleted)
        } else if s == "content.deleted.folder"@ {
            Some(RemoteEventType::Deleted)
        } else if s == "content.undeleted.html-document"@ {
            Some(RemoteEventType::Created)
        } else if s == "content.undeleted.file"@ {
            Some(RemoteEventType::Created)
        } else if s == "content.undeleted.folder"@ {
            Some(RemoteEventType::Created)
        } else {
            None
        }
    }

    pub fn from_str(str_: &str) -> (r: Option<Self>)
        ensures
            r == Self::from_event_name(str_@),
    {
        if str_equal(str_, "content.modified.html-document") {
            Some(RemoteEventType::Modified)
        } else if str_equal(str_, "content.modified.file") {
            Some(RemoteEventType::Modified)
        } else if str_equal(str_, "content.modified.folder") {
            Some(RemoteEventType::Modified)
        } else if str_equal(str_, "content.created.html-document") {
            Some(RemoteEventType::Created)
        } else if str_equal(str_, "content.created.file") {
            Some(RemoteEventType::Created)
        } else if str_equal(str_, "content.created.folder") {
            Some(RemoteEventType::Created)
        } else if str_equal(str_, "content.deleted.html-document") {
            Some(RemoteEventType::Deleted)
        } else if str_equal(str_, "content.deleted.file") {
            Some(RemoteEventType::Deleted)
        } else if str_equal(str_, "content.deleted.folder") {
            Some(RemoteEventType::Deleted)
        } else if str_equal(str_, "content.undeleted.html-document") {
            Some(RemoteEventType::Created)
        } else if str_equal(str_, "content.undeleted.file") {
            Some(RemoteEventType::Created)
        } else if str_equal(str_, "content.undeleted.folder") {
            Some(RemoteEventType::Created)
        } else {
            None
        }
    }
}

/// The content type names differ from one another.
proof fn lemma_content_type_names_distinct()
    ensures
        "file"@.len() != "html-document"@.len(),
        "file"@.len() != "folder"@.len(),
        "html-document"@.len() != "folder"@.len(),
{
    reveal_strlit("file");
    reveal_strlit("html-document");
    reveal_strlit("folder");
    assert("file"@.len() != "html-document"@.len());
    assert("file"@.len() != "folder"@.len());
    assert("html-document"@.len() != "folder"@.len());
}

/// The action words differ from one another.
proof fn lemma_action_words_distinct()
    ensures
        "modified"@.len() != "created"@.len(),
        "modified"@.len() != "deleted"@.len(),
        "modified"@.len() != "undeleted"@.len(),
        "created"@[0] != "deleted"@[0],
        "created"@.len() != "undeleted"@.len(),
        "deleted"@.len() != "undeleted"@.len(),
{
    reveal_strlit("modified");
    reveal_strlit("created");
    reveal_strlit("deleted");
    reveal_strlit("undeleted");
    assert("modified"@.len() != "created"@.len());
    assert("modified"@.len() != "deleted"@.len());
    assert("modified"@.len() != "undeleted"@.len());
    assert("created"@[0] != "deleted"@[0]);
    assert("created"@.len() != "undeleted"@.len());
    assert("deleted"@.len() != "undeleted"@.len());
}

/// The content event types differ from one another.
proof fn lemma_event_names_distinct()
    ensures
        "content.modified.file"@.len() != "content.modified.html-document"@.len(),
        "content.modified.file"@.len() != "content.modified.folder"@.len(),
        "content.modified.file"@.len() != "content.created.file"@.len(),
        "content.modified.file"@.len() != "content.created.html-document"@.len(),
        "content.modified.file"@.len() != "content.created.folder"@.len(),
        "content.modified.file"@.len() != "content.deleted.file"@.len(),
        "content.modified.file"@.len() != "content.deleted.html-document"@.len(),
        "content.modified.file"@.len() != "content.deleted.folder"@.len(),
        "content.modified.file"@.len() != "content.undeleted.file"@.len(),
        "content.modified.file"@.len() != "content.undeleted.html-document"@.len(),
        "content.modified.file"@.len() != "content.undeleted.folder"@.len(),
        "content.modified.html-document"@.len() != "content.modified.folder"@.len(),
        "content.modified.html-document"@.len() != "content.created.file"@.len(),
        "content.modified.html-document"@.len() != "content.created.html-document"@.len(),
        "content.modified.html-document"@.len() != "content.created.folder"@.len(),
        "content.modified.html-document"@.len() != "content.deleted.file"@.len(),
        "content.modified.html-document"@.len() != "content.deleted.html-document"@.len(),
        "content.modified.html-document"@.len() != "content.deleted.folder"@.len(),
        "content.modified.html-document"@.len() != "content.undeleted.file"@.len(),
        "content.modified.html-document"@.len() != "content.undeleted.html-document"@.len(),
        "content.modified.html-document"@.len() != "content.undeleted.folder"@.len(),
        "content.modified.folder"@.len() != "content.created.file"@.len(),
        "content.modified.folder"@.len() != "content.created.html-document"@.len(),
        "content.modified.folder"@.len() != "content.created.folder"@.len(),
        "content.modified.folder"@.len() != "content.deleted.file"@.len(),
        "content.modified.folder"@.len() != "content.deleted.html-document"@.len(),
        "content.modified.folder"@.len() != "content.deleted.folder"@.len(),
        "content.modified.folder"@.len() != "content.undeleted.file"@.len(),
        "content.modified.folder"@.len() != "content.undeleted.html-document"@.len(),
        "content.modified.folder"@.len() != "content.undeleted.folder"@.len(),
        "content.created.file"@.len() != "content.created.html-document"@.len(),
        "content.created.file"@.len() != "content.created.folder"@.len(),
        "content.created.file"@[8] != "content.deleted.file"@[8],
        "content.created.file"@.len() != "content.deleted.html-document"@.len(),
        "content.created.file"@.len() != "content.deleted.folder"@.len(),
        "content.created.file"@.len() != "content.undeleted.file"@.len(),
        "content.created.file"@.len() != "content.undeleted.html-document"@.len(),
        "content.created.file"@.len() != "content.undeleted.folder"@.len(),
        "content.created.html-document"@.len() != "content.created.folder"@.len(),
        "content.created.html-document"@.len() != "content.deleted.file"@.len(),
        "content.created.html-document"@[8] != "content.deleted.html-document"@[8],
        "content.created.html-document"@.len() != "content.deleted.folder"@.len(),
        "content.created.html-document"@.len() != "content.undeleted.file"@.len(),
        "content.created.html-document"@.len() != "content.undeleted.html-document"@.len(),
        "content.created.html-document"@.len() != "content.undeleted.folder"@.len(),
        "content.created.folder"@.len() != "content.deleted.file"@.len(),
        "content.created.folder"@.len() != "content.deleted.html-document"@.len(),
        "content.created.folder"@[8] != "content.deleted.folder"@[8],
        "content.created.folder"@[8] != "content.undeleted.file"@[8],
        "content.created.folder"@.len() != "content.undeleted.html-document"@.len(),
        "content.created.folder"@.len() != "content.undeleted.folder"@.len(),
        "content.deleted.file"@.len() != "content.deleted.html-document"@.len(),
        "content.deleted.file"@.len() != "content.deleted.folder"@.len(),
        "content.deleted.file"@.len() != "content.undeleted.file"@.len(),
        "content.deleted.file"@.len() != "content.undeleted.html-document"@.len(),
        "content.deleted.file"@.len() != "content.undeleted.folder"@.len(),
        "content.deleted.html-document"@.len() != "content.deleted.folder"@.len(),
        "content.deleted.html-document"@.len() != "content.undeleted.file"@.len(),
        "content.deleted.html-document"@.len() != "content.undeleted.html-document"@.len(),
        "content.deleted.html-document"@.len() != "content.undeleted.folder"@.len(),
        "content.deleted.folder"@[8] != "content.undeleted.file"@[8],
        "content.deleted.folder"@.len() != "content.undeleted.html-document"@.len(),
        "content.deleted.folder"@.len() != "content.undeleted.folder"@.len(),
        "content.undeleted.file"@.len() != "content.undeleted.html-document"@.len(),
        "content.undeleted.file"@.len() != "content.undeleted.folder"@.len(),
        "content.undeleted.html-document"@.len() != "content.undeleted.folder"@.len(),
{
    reveal_strlit("content.modified.file");
    reveal_strlit("content.modified.html-document");
    reveal_strlit("content.modified.folder");
    reveal_strlit("content.created.file");
    reveal_strlit("content.created.html-document");
    reveal_strlit("content.created.folder");
    reveal_strlit("content.deleted.file");
    reveal_strlit("content.deleted.html-document");
    reveal_strlit("content.deleted.folder");
    reveal_strlit("content.undeleted.file");
    reveal_strlit("content.undeleted.html-document");
    reveal_strlit("content.undeleted.folder");
    assert("content.modified.file"@.len() != "content.modified.html-document"@.len());
    assert("content.modified.file"@.len() != "content.modified.folder"@.len());
    assert("content.modified.file"@.len() != "content.created.file"@.len());
    assert("content.modified.file"@.len() != "content.created.html-document"@.len());
    assert("content.modified.file"@.len() != "content.created.folder"@.len());
    assert("content.modified.file"@.len() != "content.deleted.file"@.len());
    assert("content.modified.file"@.len() != "content.deleted.html-document"@.len());
    assert("content.modified.file"@.len() != "content.deleted.folder"@.len());
    assert("content.modified.file"@.len() != "content.undeleted.file"@.len());
    assert("content.modified.file"@.len() != "content.undeleted.html-document"@.len());
    assert("content.modified.file"@.len() != "content.undeleted.folder"@.len());
    assert("content.modified.html-document"@.len() != "content.modified.folder"@.len());
    assert("content.modified.html-document"@.len() != "content.created.file"@.len());
    assert("content.modified.html-document"@.len() != "content.created.html-document"@.len());
    assert("content.modified.html-document"@.len() != "content.created.folder"@.len());
    assert("content.modified.html-document"@.len() != "content.deleted.file"@.len());
    assert("content.modified.html-document"@.len() != "content.deleted.html-document"@.len());
    assert("content.modified.html-document"@.len() != "content.deleted.folder"@.len());
    assert("content.modified.html-document"@.len() != "content.undeleted.file"@.len());
    assert("content.modified.html-document"@.len() != "content.undeleted.html-document"@.len());
    assert("content.modified.html-document"@.len() != "content.undeleted.folder"@.len());
    assert("content.modified.folder"@.len() != "content.created.file"@.len());
    assert("content.modified.folder"@.len() != "content.created.html-document"@.len());
    assert("content.modified.folder"@.len() != "content.created.folder"@.len());
    assert("content.modified.folder"@.len() != "content.deleted.file"@.len());
    assert("content.modified.folder"@.len() != "content.deleted.html-document"@.len());
    assert("content.modified.folder"@.len() != "content.deleted.folder"@.len());
    assert("content.modified.folder"@.len() != "content.undeleted.file"@.len());
    assert("content.modified.folder"@.len() != "content.undeleted.html-document"@.len());
    assert("content.modified.folder"@.len() != "content.undeleted.folder"@.len());
    assert("content.created.file"@.len() != "content.created.html-document"@.len());
    assert("content.created.file"@.len() != "content.created.folder"@.len());
    assert("content.created.file"@[8] != "content.deleted.file"@[8]);
    assert("content.created.file"@.len() != "content.deleted.html-document"@.len());
    assert("content.created.file"@.len() != "content.deleted.folder"@.len());
    assert("content.created.file"@.len() != "content.undeleted.file"@.len());
    assert("content.created.file"@.len() != "content.undeleted.html-document"@.len());
    assert("content.created.file"@.len() != "content.undeleted.folder"@.len());
    assert("content.created.html-document"@.len() != "content.created.folder"@.len());
    assert("content.created.html-document"@.len() != "content.deleted.file"@.len());
    assert("content.created.html-document"@[8] != "content.deleted.html-document"@[8]);
    assert("content.created.html-document"@.len() != "content.deleted.folder"@.len());
    assert("content.created.html-document"@.len() != "content.undeleted.file"@.len());
    assert("content.created.html-document"@.len() != "content.undeleted.html-document"@.len());
    assert("content.created.html-document"@.len() != "content.undeleted.folder"@.len());
    assert("content.created.folder"@.len() != "content.deleted.file"@.len());
    assert("content.created.folder"@.len() != "content.deleted.html-document"@.len());
    assert("content.created.folder"@[8] != "content.deleted.folder"@[8]);
    assert("content.created.folder"@[8] != "content.undeleted.file"@[8]);
    assert("content.created.folder"@.len() != "content.undeleted.html-document"@.len());
    assert("content.created.folder"@.len() != "content.undeleted.folder"@.len());
    assert("content.deleted.file"@.len() != "content.deleted.html-document"@.len());
    assert("content.deleted.file"@.len() != "content.deleted.folder"@.len());
    assert("content.deleted.file"@.len() != "content.undeleted.file"@.len());
    assert("content.deleted.file"@.len() != "content.undeleted.html-document"@.len());
    assert("content.deleted.file"@.len() != "content.undeleted.folder"@.len());
    assert("content.deleted.html-document"@.len() != "content.deleted.folder"@.len());
    assert("content.deleted.html-document"@.len() != "content.undeleted.file"@.len());
    assert("content.deleted.html-document"@.len() != "content.undeleted.html-document"@.len());
    assert("content.deleted.html-document"@.len() != "content.undeleted.folder"@.len());
    assert("content.deleted.folder"@[8] != "content.undeleted.file"@[8]);
    assert("content.deleted.folder"@.len() != "content.undeleted.html-document"@.len());
    assert("content.deleted.folder"@.len() != "content.undeleted.folder"@.len());
    assert("content.undeleted.file"@.len() != "content.undeleted.html-document"@.len());
    assert("content.undeleted.file"@.len() != "content.undeleted.folder"@.len());
    assert("content.undeleted.html-document"@.len() != "content.undeleted.folder"@.len());
}

/// A content type's name reads back as that content type, and it is the only
/// name that does.
pub proof fn lemma_content_type_name_round_trip(c: ContentType, s: Seq<char>)
    ensures
        ContentType::from_name(c.name()) == Some(c),
        ContentType::from_name(s) == Some(c) <==> s == c.name(),
{
    lemma_content_type_names_distinct();
}

/// The twelve content event types spelled out.
proof fn lemma_event_names_spelled()
    ensures
        RemoteEventType::event_name("modified"@, ContentType::File) =~= "content.modified.file"@,
        RemoteEventType::event_name("modified"@, ContentType::HtmlDocument) =~= "content.modified.html-document"@,
        RemoteEventType::event_name("modified"@, ContentType::Folder) =~= "content.modified.folder"@,
        RemoteEventType::event_name("created"@, ContentType::File) =~= "content.created.file"@,
        RemoteEventType::event_name("created"@, ContentType::HtmlDocument) =~= "content.created.html-document"@,
        RemoteEventType::event_name("created"@, ContentType::Folder) =~= "content.created.folder"@,
        RemoteEventType::event_name("deleted"@, ContentType::File) =~= "content.deleted.file"@,
        RemoteEventType::event_name("deleted"@, ContentType::HtmlDocument) =~= "content.deleted.html-document"@,
        RemoteEventType::event_name("deleted"@, ContentType::Folder) =~= "content.deleted.folder"@,
        RemoteEventType::event_name("undeleted"@, ContentType::File) =~= "content.undeleted.file"@,
        RemoteEventType::event_name("undeleted"@, ContentType::HtmlDocument) =~= "content.undeleted.html-document"@,
        RemoteEventType::event_name("undeleted"@, ContentType::Folder) =~= "content.undeleted.folder"@,
{
    reveal_strlit("file");
    reveal_strlit("html-document");
    reveal_strlit("folder");
    reveal_strlit("modified");
    reveal_strlit("created");
    reveal_strlit("deleted");
    reveal_strlit("undeleted");
    reveal_strlit("content.");
    reveal_strlit(".");
    reveal_strlit("content.modified.file");
    reveal_strlit("content.modified.html-document");
    reveal_strlit("content.modified.folder");
    reveal_strlit("content.created.file");
    reveal_strlit("content.created.html-document");
    reveal_strlit("content.created.folder");
    reveal_strlit("content.deleted.file");
    reveal_strlit("content.deleted.html-document");
    reveal_strlit("content.deleted.folder");
    reveal_strlit("content.undeleted.file");
    reveal_strlit("content.undeleted.html-document");
    reveal_strlit("content.undeleted.folder");
    assert(RemoteEventType::event_name("modified"@, ContentType::File) =~= "content.modified.file"@);
    assert(RemoteEventType::event_name("modified"@, ContentType::HtmlDocument) =~= "content.modified.html-document"@);
    assert(RemoteEventType::event_name("modified"@, ContentType::Folder) =~= "content.modified.folder"@);
    assert(RemoteEventType::event_name("created"@, ContentType::File) =~= "content.created.file"@);
    assert(RemoteEventType::event_name("created"@, ContentType::HtmlDocument) =~= "content.created.html-document"@);
    assert(RemoteEventType::event_name("created"@, ContentType::Folder) =~= "content.created.folder"@);
    assert(RemoteEventType::event_name("deleted"@, ContentType::File) =~= "content.deleted.file"@);
    assert(RemoteEventType::event_name("deleted"@, ContentType::HtmlDocument) =~= "content.deleted.html-document"@);
    assert(RemoteEventType::event_name("deleted"@, ContentType::Folder) =~= "content.deleted.folder"@);
    assert(RemoteEventType::event_name("undeleted"@, ContentType::File) =~= "content.undeleted.file"@);
    assert(RemoteEventType::event_name("undeleted"@, ContentType::HtmlDocument) =~= "content.undeleted.html-document"@);
    assert(RemoteEventType::event_name("undeleted"@, ContentType::Folder) =~= "content.undeleted.folder"@);
}

/// A content event type is `content.<action>.<content type name>`: for every
/// action word and every content type that name is recognised, with the kind
/// its action denotes, and nothing else is recognised.
pub proof fn lemma_remote_event_name_structure(action: Seq<char>, c: ContentType, s: Seq<char>)
    ensures
        RemoteEventType::from_action(action) is Some ==> RemoteEventType::from_event_name(
            RemoteEventType::event_name(action, c),
        ) == RemoteEventType::from_action(action),
        RemoteEventType::from_event_name(s) is Some ==> exists|a: Seq<char>, t: ContentType|
            s == RemoteEventType::event_name(a, t) && RemoteEventType::from_action(a)
                == RemoteEventType::from_event_name(s),
{
    lemma_event_names_spelled();
    lemma_event_names_distinct();
    lemma_action_words_distinct();
    if s == "content.modified.file"@ {
        assert(s == RemoteEventType::event_name("modified"@, ContentType::File));
    }
    if s == "content.modified.html-document"@ {
        assert(s == RemoteEventType::event_name("modified"@, ContentType::HtmlDocument));
    }
    if s == "content.modified.folder"@ {
        assert(s == RemoteEventType::event_name("modified"@, ContentType::Folder));
    }
    if s == "content.created.file"@ {
        assert(s == RemoteEventType::event_name("created"@, ContentType::File));
    }
    if s == "content.created.html-document"@ {
        assert(s == RemoteEventType::event_name("created"@, ContentType::HtmlDocument));
    }
    if s == "content.created.folder"@ {
        assert(s == RemoteEventType::event_name("created"@, ContentType::Folder));
    }
    if s == "content.deleted.file"@ {
        assert(s == RemoteEventType::event_name("deleted"@, ContentType::File));
    }
    if s == "content.deleted.html-document"@ {
        assert(s == RemoteEventType::event_name("deleted"@, ContentType::HtmlDocument));
    }
    if s == "content.deleted.folder"@ {
        assert(s == RemoteEventType::event_name("deleted"@, ContentType::Folder));
    }
    if s == "content.undeleted.file"@ {
        assert(s == RemoteEventType::event_name("undeleted"@, ContentType::File));
    }
    if s == "content.undeleted.html-document"@ {
        assert(s == RemoteEventType::event_name("undeleted"@, ContentType::HtmlDocument));
    }
    if s == "content.undeleted.folder"@ {
        assert(s == RemoteEventType::event_name("undeleted"@, ContentType::Folder));
    }
}

} // verus!
