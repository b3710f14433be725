//! The two scalar fields of a file record that have a coding of their own:
//! the file type and the content hash.

use crate::codec::decoded;
use crate::codec::required;
use crate::codec::spec_required;
use crate::codec::Decode;
use crate::error::DecodeError;
use crate::error::Shape;
use crate::wire::first_at;
use crate::wire::lemma_lookup_first;
use crate::wire::Wire;
use crate::wire::WireView;
use vstd::prelude::*;
use vstd::string::StrSliceExecFns;

verus! {

/// The kind of a file, which the wire carries as one character.
#[derive(Debug, Clone, Copy, PartialEq, Eq, Structural)]
pub enum FileType {
    BlockSpecial,
    CharSpecial,
    Directory,
    Regular,
    Fifo,
    Symlink,
    Socket,
    SolarisDoor,
    Unknown,
}

impl DeepView for FileType {
    type V = FileType;

    open spec fn deep_view(&self) -> FileType {
        *self
    }
}

impl FileType {
    /// The character that stands for the kind.
    pub open spec fn spec_code(self) -> char {
        match self {
            FileType::BlockSpecial => 'b',
            FileType::CharSpecial => 'c',
            FileType::Directory => 'd',
            FileType::Regular => 'f',
            FileType::Fifo => 'p',
            FileType::Symlink => 'l',
            FileType::Socket => 's',
            FileType::SolarisDoor => 'D',
            FileType::Unknown => '?',
        }
    }

    /// The kind that the character stands for, if it stands for one.
    pub open spec fn spec_from_char(c: char) -> Option<FileType> {
        if c == 'b' {
            Some(FileType::BlockSpecial)
        } else if c == 'c' {
            Some(FileType::CharSpecial)
        } else if c == 'd' {
            Some(FileType::Directory)
        } else if c == 'f' {
            Some(FileType::Regular)
        } else if c == 'p' {
            Some(FileType::Fifo)
        } else if c == 'l' {
            Some(FileType::Symlink)
        } else if c == 's' {
            Some(FileType::Socket)
        } else if c == 'D' {
            Some(FileType::SolarisDoor)
        } else if c == '?' {
            Some(FileType::Unknown)
        } else {
            None
        }
    }

    /// The kind that the text stands for: the text must be one character,
    /// and that character one of the nine codes.
    pub open spec fn spec_from_code(code: Seq<char>) -> Result<FileType, DecodeError> {
        if code.len() == 1 && Self::spec_from_char(code[0]) is Some {
            Ok(Self::spec_from_char(code[0])->Some_0)
        } else {
            Err(DecodeError::Mismatch(Shape::FileTypeCode))
        }
    }

    /// The kind on the wire: the text of its one character.
    pub open spec fn wire(self) -> WireView {
        WireView::Text(seq![self.spec_code()])
    }

    /// The kind that the character stands for, if it stands for one.
    pub fn from_char(c: char) -> (r: Option<FileType>)
        ensures
            r == Self::spec_from_char(c),
    {
        if c == 'b' {
            Some(FileType::BlockSpecial)
        } else if c == 'c' {
            Some(FileType::CharSpecial)
        } else if c == 'd' {
            Some(FileType::Directory)
        } else if c == 'f' {
            Some(FileType::Regular)
        } else if c == 'p' {
            Some(FileType::Fifo)
        } else if c == 'l' {
            Some(FileType::Symlink)
        } else if c == 's' {
            Some(FileType::Socket)
        } else if c == 'D' {
            Some(FileType::SolarisDoor)
        } else if c == '?' {
            Some(FileType::Unknown)
        } else {
            None
        }
    }

    /// The kind that the text stands for. A text that is none of the nine
    /// codes is reported, not guessed at.
    pub fn from_code(code: &str) -> (r: Result<FileType, DecodeError>)
        ensures
            r == Self::spec_from_code(code@),
    {
        if code.unicode_len() == 1 {
            match Self::from_char(code.get_char(0)) {
                Some(kind) => Ok(kind),
                None => Err(DecodeError::Mismatch(Shape::FileTypeCode)),
            }
        } else {
            Err(DecodeError::Mismatch(Shape::FileTypeCode))
        }
    }

    /// The code of the kind: a text of one character.
    pub fn code(self) -> (s: String)
        ensures
            s@ == seq![self.spec_code()],
    {
        proof {
            reveal_strlit("b");
            reveal_strlit("c");
            reveal_strlit("d");
            reveal_strlit("f");
            reveal_strlit("p");
            reveal_strlit("l");
            reveal_strlit("s");
            reveal_strlit("D");
            reveal_strlit("?");
        }
        let code = match self {
            FileType::BlockSpecial => "b",
            FileType::CharSpecial => "c",
            FileType::Directory => "d",
            FileType::Regular => "f",
            FileType::Fifo => "p",
            FileType::Symlink => "l",
            FileType::Socket => "s",
            FileType::SolarisDoor => "D",
            FileType::Unknown => "?",
        };
        assert(code@ =~= seq![self.spec_code()]);
        code.to_owned()
    }

    /// The kind on the wire.
    pub fn encode(self) -> (w: Wire)
        ensures
            w@ == self.wire(),
    {
        Wire::Text(self.code())
    }
}

impl Decode for FileType {
    /// A text that is one of the nine codes is read as its kind.
    open spec fn spec_decode(w: WireView) -> Result<FileType, DecodeError> {
        match w.as_text() {
            Some(code) => FileType::spec_from_code(code),
            None => Err(DecodeError::Mismatch(Shape::Text)),
        }
    }

    fn decode(w: &Wire) -> (r: Result<FileType, DecodeError>)
        ensures
            decoded(r) == Self::spec_decode(w@),
    {
        match w.as_text() {
            Some(code) => FileType::from_code(code.as_str()),
            None => Err(DecodeError::Mismatch(Shape::Text)),
        }
    }
}

/// Encoding a kind and decoding the result gives the kind back.
pub proof fn lemma_file_type_round_trip(kind: FileType)
    ensures
        FileType::spec_from_char(kind.spec_code()) == Some(kind),
        FileType::spec_from_code(seq![kind.spec_code()]) == Ok::<FileType, DecodeError>(kind),
        FileType::spec_decode(kind.wire()) == Ok::<FileType, DecodeError>(kind),
{
}

/// A text is decoded exactly when it is the code of a kind, and then to that
/// kind: every other text is a failure.
pub proof fn lemma_file_type_codes_only(code: Seq<char>)
    ensures
        match FileType::spec_decode(WireView::Text(code)) {
            Ok(kind) => code == seq![kind.spec_code()],
            Err(e) => e == DecodeError::Mismatch(Shape::FileTypeCode) && forall|kind: FileType|
                code != seq![#[trigger] kind.spec_code()],
        },
{
    match FileType::spec_decode(WireView::Text(code)) {
        Ok(kind) => {
            assert(code =~= seq![kind.spec_code()]);
        },
        Err(e) => {
            assert forall|kind: FileType| code != seq![#[trigger] kind.spec_code()] by {
                if code == seq![kind.spec_code()] {
                    assert(code.len() == 1);
                    assert(code[0] == kind.spec_code());
                    lemma_file_type_round_trip(kind);
                }
            }
        },
    }
}

/// The result of hashing the content of one file.
#[derive(Debug, Clone, PartialEq)]
pub enum ContentSha1Hex {
    /// The hash of the content, as 40 hexadecimal digits.
    Hash(String),
    /// Why the content could not be hashed.
    Error { error: String },
    /// The file was deleted before its content was hashed. A file that
    /// goes away while it is being hashed gives an `Error` instead.
    Deleted,
}

/// The mathematical value of a [`ContentSha1Hex`].
pub ghost enum ContentSha1HexView {
    Hash(Seq<char>),
    Error { error: Seq<char> },
    Deleted,
}

impl DeepView for ContentSha1Hex {
    type V = ContentSha1HexView;

    open spec fn deep_view(&self) -> ContentSha1HexView {
        match self {
            ContentSha1Hex::Hash(hash) => ContentSha1HexView::Hash(hash@),
            ContentSha1Hex::Error { error } => ContentSha1HexView::Error { error: error@ },
            ContentSha1Hex::Deleted => ContentSha1HexView::Deleted,
        }
    }
}

impl Decode for ContentSha1Hex {
    /// The three shapes are tried in order: a text is the hash; a map with a
    /// text under `error` is the error; null is the deleted file. Nothing
    /// else is accepted.
    open spec fn spec_decode(w: WireView) -> Result<ContentSha1HexView, DecodeError> {
        match w.as_text() {
            Some(hash) => Ok(ContentSha1HexView::Hash(hash)),
            None => match spec_required::<String>(w, "error") {
                Ok(error) => Ok(ContentSha1HexView::Error { error }),
                Err(_) => match w {
                    WireView::Null => Ok(ContentSha1HexView::Deleted),
                    _ => Err(DecodeError::Mismatch(Shape::ContentSha1Hex)),
                },
            },
        }
    }

    fn decode(w: &Wire) -> (r: Result<ContentSha1Hex, DecodeError>)
        ensures
            decoded(r) == Self::spec_decode(w@),
    {
        match w.as_text() {
            Some(hash) => Ok(ContentSha1Hex::Hash(hash)),
            None => match required::<String>(w, "error") {
                Ok(error) => Ok(ContentSha1Hex::Error { error }),
                Err(_) => match w {
                    Wire::Null => Ok(ContentSha1Hex::Deleted),
                    _ => Err(DecodeError::Mismatch(Shape::ContentSha1Hex)),
                },
            },
        }
    }
}

/// The shapes that are read as the result of a hash, each with what it is
/// read as: a text, a map with a text under `error`, and null. Every other
/// value is refused.
pub proof fn lemma_content_sha1_hex_shapes(w: WireView)
    ensures
        w.as_text() is Some ==> ContentSha1Hex::spec_decode(w) == Ok::<
            ContentSha1HexView,
            DecodeError,
        >(ContentSha1HexView::Hash(w.as_text()->Some_0)),
        w is Object && w.field("error"@) is Some && w.field("error"@)->Some_0.as_text() is Some
            ==> ContentSha1Hex::spec_decode(w) == Ok::<ContentSha1HexView, DecodeError>(
            ContentSha1HexView::Error { error: w.field("error"@)->Some_0.as_text()->Some_0 },
        ),
        w is Null ==> ContentSha1Hex::spec_decode(w) == Ok::<ContentSha1HexView, DecodeError>(
            ContentSha1HexView::Deleted,
        ),
        ContentSha1Hex::spec_decode(w) is Ok ==> w.as_text() is Some || w is Null || (w is Object
            && w.field("error"@) is Some && w.field("error"@)->Some_0.as_text() is Some),
        ContentSha1Hex::spec_decode(w) is Err ==> ContentSha1Hex::spec_decode(w) == Err::<
            ContentSha1HexView,
            DecodeError,
        >(DecodeError::Mismatch(Shape::ContentSha1Hex)),
{
}

/// The map that holds a message under `error` and nothing else is read as
/// the error with that message.
pub proof fn lemma_content_sha1_hex_error_map(message: Seq<char>)
    ensures
        ContentSha1Hex::spec_decode(WireView::Object(seq![("error"@, WireView::Text(message))]))
            == Ok::<ContentSha1HexView, DecodeError>(ContentSha1HexView::Error { error: message }),
{
    let entries = seq![("error"@, WireView::Text(message))];
    assert(first_at(entries, "error"@, 0));
    lemma_lookup_first(entries, "error"@, 0);
}

} // verus!
