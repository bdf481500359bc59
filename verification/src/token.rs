//! Token records and how they are read out of a JSON document.

use vstd::prelude::*;
use crate::json::{Document, DocumentView, json_document, read_document};

verus! {

/// Name, symbol and decimal precision of an ERC20 token, each as text.
#[derive(Debug, Clone, PartialEq, Eq)]
pub struct TokenInfo {
    pub name: String,
    pub symbol: String,
    pub decimals: String,
}

/// The mathematical value of a [`TokenInfo`].
pub struct TokenInfoView {
    pub name: Seq<char>,
    pub symbol: Seq<char>,
    pub decimals: Seq<char>,
}

impl View for TokenInfo {
    type V = TokenInfoView;

    open spec fn view(&self) -> TokenInfoView {
        TokenInfoView { name: self.name@, symbol: self.symbol@, decimals: self.decimals@ }
    }
}

/// One of the three fields of a token record.
#[derive(Debug, Clone, Copy, PartialEq, Eq, Structural)]
pub enum Field {
    Name,
    Symbol,
    Decimals,
}

impl Field {
    /// The member name under which an object holds the field.
    pub open spec fn key(self) -> Seq<char> {
        match self {
            Field::Name => "name"@,
            Field::Symbol => "symbol"@,
            Field::Decimals => "decimals"@,
        }
    }

    /// The index at which an array holds the field.
    pub open spec fn position(self) -> int {
        match self {
            Field::Name => 0,
            Field::Symbol => 1,
            Field::Decimals => 2,
        }
    }

    /// The member name under which an object holds the field.
    pub fn member_name(self) -> (r: &'static str)
        ensures
            r@ == self.key(),
    {
        match self {
            Field::Name => "name",
            Field::Symbol => "symbol",
            Field::Decimals => "decimals",
        }
    }

    /// The index at which an array holds the field.
    pub fn index(self) -> (r: usize)
        ensures
            r == self.position(),
    {
        match self {
            Field::Name => 0,
            Field::Symbol => 1,
            Field::Decimals => 2,
        }
    }
}

/// Why a text is not a token record.
#[derive(Debug, Clone, Copy, PartialEq, Eq, Structural)]
pub enum DecodeError {
    /// The text is not JSON.
    Syntax,
    /// The text is JSON, but neither an object nor an array.
    NotARecord,
    /// The object has no member of that name, or the array is too short to
    /// hold the field.
    Missing(Field),
    /// The field is there, but its value is not a JSON string.
    NotText(Field),
    /// The array has more than three items.
    Excess,
}

impl DecodeError {
    /// The description of the error.
    pub open spec fn text(self) -> Seq<char> {
        match self {
            DecodeError::Syntax => "not valid JSON"@,
            DecodeError::NotARecord => "neither an object nor an array"@,
            DecodeError::Missing(field) => "missing field `"@ + field.key() + "`"@,
            DecodeError::NotText(field) => "field `"@ + field.key() + "` is not a string"@,
            DecodeError::Excess => "more than three items"@,
        }
    }

    /// Describes the error for a reader.
    pub fn message(self) -> (r: String)
        ensures
            r@ == self.text(),
    {
        match self {
            DecodeError::Syntax => String::from_str("not valid JSON"),
            DecodeError::NotARecord => String::from_str("neither an object nor an array"),
            DecodeError::Missing(field) => String::from_str("missing field `").concat(
                field.member_name(),
            ).concat("`"),
            DecodeError::NotText(field) => String::from_str("field `").concat(
                field.member_name(),
            ).concat("` is not a string"),
            DecodeError::Excess => String::from_str("more than three items"),
        }
    }
}

/// The value of the first member of `members` whose name is `key`, if there
/// is one: `Some(text)` for a JSON string, `None` for any other value.
pub open spec fn member(members: Seq<(Seq<char>, Option<Seq<char>>)>, key: Seq<char>) -> Option<
    Option<Seq<char>>,
>
    decreases members.len(),
{
    if members.len() == 0 {
        None
    } else if members[0].0 == key {
        Some(members[0].1)
    } else {
        member(members.drop_first(), key)
    }
}

/// What `doc` holds in the place of `field`: by name in an object, by
/// position in an array, nothing in a scalar.
pub open spec fn slot(doc: DocumentView, field: Field) -> Option<Option<Seq<char>>> {
    match doc {
        DocumentView::Object(members) => member(members, field.key()),
        DocumentView::Array(items) => if field.position() < items.len() {
            Some(items[field.position()])
        } else {
            None
        },
        DocumentView::Scalar => None,
    }
}

/// The text of `field` in `doc`, or the reason why there is none.
pub open spec fn field_text(doc: DocumentView, field: Field) -> Result<Seq<char>, DecodeError> {
    match slot(doc, field) {
        None => Err(DecodeError::Missing(field)),
        Some(None) => Err(DecodeError::NotText(field)),
        Some(Some(text)) => Ok(text),
    }
}

/// The token record that `doc` holds.
///
/// An object is read by member name and may hold other members besides the
/// three fields; an array is read by position and must hold exactly three
/// items. The fields are examined in the order name, symbol, decimals, and
/// the first that fails decides the error.
pub open spec fn record(doc: DocumentView) -> Result<TokenInfoView, DecodeError> {
    if doc is Scalar {
        Err(DecodeError::NotARecord)
    } else {
        match field_text(doc, Field::Name) {
            Err(e) => Err(e),
            Ok(name) => match field_text(doc, Field::Symbol) {
                Err(e) => Err(e),
                Ok(symbol) => match field_text(doc, Field::Decimals) {
                    Err(e) => Err(e),
                    Ok(decimals) => if doc is Array && doc->Array_0.len() > 3 {
                        Err(DecodeError::Excess)
                    } else {
                        Ok(TokenInfoView { name, symbol, decimals })
                    },
                },
            },
        }
    }
}

/// The token record that the JSON text `text` holds.
pub open spec fn decoded(text: Seq<char>) -> Result<TokenInfoView, DecodeError> {
    match json_document(text) {
        None => Err(DecodeError::Syntax),
        Some(doc) => record(doc),
    }
}

/// Looking a name up among all members is looking it up among those from
/// index `i` on, provided that none before `i` bears the name.
proof fn member_skips(members: Seq<(Seq<char>, Option<Seq<char>>)>, key: Seq<char>, i: int)
    requires
        0 <= i <= members.len(),
        forall|j: int| 0 <= j < i ==> members[j].0 != key,
    ensures
        member(members, key) == member(members.skip(i), key),
    decreases i,
{
    if i == 0 {
        assert(members.skip(0) =~= members);
    } else {
        member_skips(members, key, i - 1);
        let rest = members.skip(i - 1);
        assert(rest[0] == members[i - 1]);
        assert(rest.drop_first() =~= members.skip(i));
    }
}

/// What [`member`] finds is the first member of that name: no member before
/// it bears the name, and where it finds none, no member bears it.
pub proof fn member_is_the_first_of_its_name(
    members: Seq<(Seq<char>, Option<Seq<char>>)>,
    key: Seq<char>,
)
    ensures
        member(members, key) is None <==> forall|i: int|
            0 <= i < members.len() ==> (#[trigger] members[i]).0 != key,
        member(members, key) matches Some(value) ==> exists|i: int|
            0 <= i < members.len() && (#[trigger] members[i]) == (key, value) && forall|j: int|
                0 <= j < i ==> (#[trigger] members[j]).0 != key,
    decreases members.len(),
{
    if members.len() == 0 {
    } else if members[0].0 == key {
        assert(members[0] == (key, members[0].1));
    } else {
        let rest = members.drop_first();
        member_is_the_first_of_its_name(rest, key);
        assert(forall|i: int| 0 <= i < rest.len() ==> rest[i] == members[i + 1]);
        if member(rest, key) is None {
            assert forall|i: int| 0 <= i < members.len() implies (#[trigger] members[i]).0
                != key by {
                if i > 0 {
                    assert(rest[i - 1] == members[i]);
                }
            }
        } else {
            let value = member(rest, key)->Some_0;
            let i = choose|i: int|
                0 <= i < rest.len() && (#[trigger] rest[i]) == (key, value) && forall|j: int|
                    0 <= j < i ==> (#[trigger] rest[j]).0 != key;
            assert(members[i + 1] == (key, value));
            assert forall|j: int| 0 <= j < i + 1 implies (#[trigger] members[j]).0 != key by {
                if j > 0 {
                    assert(rest[j - 1] == members[j]);
                }
            }
            assert(exists|k: int|
                0 <= k < members.len() && (#[trigger] members[k]) == (key, value) && forall|j: int|
                    0 <= j < k ==> (#[trigger] members[j]).0 != key);
        }
    }
}

/// Finds the first member named `key`.
fn find_member<'a>(members: &'a Vec<(String, Option<String>)>, key: &str) -> (r: Option<
    &'a Option<String>,
>)
    ensures
        r.deep_view() == member(members.deep_view(), key@),
{
    let wanted = String::from_str(key);
    let mut i: usize = 0;
    while i < members.len()
        invariant
            i <= members.len(),
            wanted@ == key@,
            forall|j: int| 0 <= j < i ==> members.deep_view()[j].0 != key@,
        decreases members.len() - i,
    {
        if members[i].0 == wanted {
            proof {
                member_skips(members.deep_view(), key@, i as int);
            }
            return Some(&members[i].1);
        }
        i += 1;
    }
    proof {
        member_skips(members.deep_view(), key@, i as int);
    }
    None
}

impl Document {
    /// Reads the text of one field out of the document.
    pub fn field(&self, field: Field) -> (r: Result<String, DecodeError>)
        ensures
            match r {
                Ok(text) => field_text(self@, field) == Ok::<Seq<char>, DecodeError>(text@),
                Err(e) => field_text(self@, field) == Err::<Seq<char>, DecodeError>(e),
            },
    {
        let found: Option<&Option<String>> = match self {
            Document::Object(members) => find_member(members, field.member_name()),
            Document::Array(items) => if field.index() < items.len() {
                Some(&items[field.index()])
            } else {
                None
            },
            Document::Scalar => None,
        };
        match found {
            None => Err(DecodeError::Missing(field)),
            Some(None) => Err(DecodeError::NotText(field)),
            Some(Some(text)) => Ok(text.clone()),
        }
    }
}

impl TokenInfo {
    /// Reads a token record out of a document.
    pub fn from_document(doc: &Document) -> (r: Result<TokenInfo, DecodeError>)
        ensures
            match r {
                Ok(info) => record(doc@) == Ok::<TokenInfoView, DecodeError>(info@),
                Err(e) => record(doc@) == Err::<TokenInfoView, DecodeError>(e),
            },
    {
        if let Document::Scalar = doc {
            return Err(DecodeError::NotARecord);
        }
        let name = match doc.field(Field::Name) {
            Ok(text) => text,
            Err(e) => return Err(e),
        };
        let symbol = match doc.field(Field::Symbol) {
            Ok(text) => text,
            Err(e) => return Err(e),
        };
        let decimals = match doc.field(Field::Decimals) {
            Ok(text) => text,
            Err(e) => return Err(e),
        };
        if let Document::Array(items) = doc {
            if items.len() > 3 {
                return Err(DecodeError::Excess);
            }
        }
        Ok(TokenInfo { name, symbol, decimals })
    }

    /// Reads a token record out of a JSON text.
    pub fn from_json(text: &str) -> (r: Result<TokenInfo, DecodeError>)
        ensures
            match r {
                Ok(info) => decoded(text@) == Ok::<TokenInfoView, DecodeError>(info@),
                Err(e) => decoded(text@) == Err::<TokenInfoView, DecodeError>(e),
            },
    {
        match read_document(text) {
            Ok(doc) => Self::from_document(&doc),
            Err(_) => Err(DecodeError::Syntax),
        }
    }
}

} // verus!
