//! The values a client is configured with and the credentials it holds.

use vstd::prelude::*;

pub mod config;
pub mod defaults;

verus! {

/// An OAuth2 credential pair and the scheme it is presented under.
///
/// Any of the three may be empty, as before the first authorisation.
#[derive(Debug, PartialEq)]
pub struct AccessToken {
    pub access_token: String,
    pub refresh_token: String,
    pub token_type: String,
}

/// What an [`AccessToken`] holds, as text.
pub struct TokenView {
    pub access_token: Seq<char>,
    pub refresh_token: Seq<char>,
    pub token_type: Seq<char>,
}

impl View for AccessToken {
    type V = TokenView;

    open spec fn view(&self) -> TokenView {
        TokenView {
            access_token: self.access_token@,
            refresh_token: self.refresh_token@,
            token_type: self.token_type@,
        }
    }
}

/// A token as it is written down or read: a record in which any field
/// may be missing.
#[derive(Debug, PartialEq)]
pub struct TokenFields {
    pub access_token: Option<String>,
    pub refresh_token: Option<String>,
    pub token_type: Option<String>,
}

/// What a [`TokenFields`] holds, as text.
pub struct FieldsView {
    pub access_token: Option<Seq<char>>,
    pub refresh_token: Option<Seq<char>>,
    pub token_type: Option<Seq<char>>,
}

impl View for TokenFields {
    type V = FieldsView;

    open spec fn view(&self) -> FieldsView {
        FieldsView {
            access_token: self.access_token.deep_view(),
            refresh_token: self.refresh_token.deep_view(),
            token_type: self.token_type.deep_view(),
        }
    }
}

/// A field as read: what was found, or `otherwise` where nothing was.
pub open spec fn read_field(found: Option<Seq<char>>, otherwise: Seq<char>) -> Seq<char> {
    match found {
        Some(text) => text,
        None => otherwise,
    }
}

/// The token that a record stands for: a missing token is empty, a missing
/// scheme is the bearer scheme.
pub open spec fn token_of_fields(fields: FieldsView) -> TokenView {
    TokenView {
        access_token: read_field(fields.access_token, Seq::empty()),
        refresh_token: read_field(fields.refresh_token, Seq::empty()),
        token_type: read_field(fields.token_type, defaults::bearer()),
    }
}

/// A field as written: left out if it is empty, and else written as it is.
pub open spec fn written_field(value: Seq<char>) -> Option<Seq<char>> {
    if value.len() == 0 {
        None
    } else {
        Some(value)
    }
}

/// The record that a token is written as. Only emptiness decides whether a
/// field is left out: a scheme that is present is written even where it is
/// the default one.
pub open spec fn fields_of_token(token: TokenView) -> FieldsView {
    FieldsView {
        access_token: written_field(token.access_token),
        refresh_token: written_field(token.refresh_token),
        token_type: written_field(token.token_type),
    }
}

impl Clone for AccessToken {
    fn clone(&self) -> (copy: Self)
        ensures
            copy == *self,
    {
        AccessToken {
            access_token: self.access_token.clone(),
            refresh_token: self.refresh_token.clone(),
            token_type: self.token_type.clone(),
        }
    }
}

impl Clone for TokenFields {
    fn clone(&self) -> (copy: Self)
        ensures
            copy == *self,
    {
        TokenFields {
            access_token: clone_field(&self.access_token),
            refresh_token: clone_field(&self.refresh_token),
            token_type: clone_field(&self.token_type),
        }
    }
}

fn clone_field(field: &Option<String>) -> (copy: Option<String>)
    ensures
        copy == *field,
{
    match field {
        Some(text) => Some(text.clone()),
        None => None,
    }
}

/// A field of a token, or nothing where it is empty.
fn write_field(value: &String) -> (field: Option<String>)
    ensures
        field.deep_view() == written_field(value@),
{
    if value.as_str().is_empty() {
        None
    } else {
        Some(value.clone())
    }
}

impl Default for AccessToken {
    /// Empty tokens under the bearer scheme.
    fn default() -> (token: Self)
        ensures
            token@.access_token == Seq::<char>::empty(),
            token@.refresh_token == Seq::<char>::empty(),
            token@.token_type == defaults::bearer(),
    {
        AccessToken {
            access_token: String::new(),
            refresh_token: String::new(),
            token_type: defaults::token_type(),
        }
    }
}

impl AccessToken {
    /// The token that a record stands for: a missing token is empty, a
    /// missing scheme is the bearer scheme.
    pub fn from_fields(fields: TokenFields) -> (token: Self)
        ensures
            token@ == token_of_fields(fields@),
    {
        AccessToken {
            access_token: match fields.access_token {
                Some(text) => text,
                None => String::new(),
            },
            refresh_token: match fields.refresh_token {
                Some(text) => text,
                None => String::new(),
            },
            token_type: match fields.token_type {
                Some(text) => text,
                None => defaults::token_type(),
            },
        }
    }

    /// The record to write this token as. An empty field is left out; a
    /// scheme that is present is written even where it is the default one.
    pub fn to_fields(&self) -> (fields: TokenFields)
        ensures
            fields@ == fields_of_token(self@),
    {
        TokenFields {
            access_token: write_field(&self.access_token),
            refresh_token: write_field(&self.refresh_token),
            token_type: write_field(&self.token_type),
        }
    }
}

/// A field is left out exactly when it is empty, and is else written with
/// its value: whether a value equals a default plays no part.
pub proof fn lemma_written_iff_present(token: TokenView)
    ensures
        fields_of_token(token).access_token is None <==> token.access_token.len() == 0,
        fields_of_token(token).refresh_token is None <==> token.refresh_token.len() == 0,
        fields_of_token(token).token_type is None <==> token.token_type.len() == 0,
        token.access_token.len() > 0 ==> fields_of_token(token).access_token == Some(
            token.access_token,
        ),
        token.refresh_token.len() > 0 ==> fields_of_token(token).refresh_token == Some(
            token.refresh_token,
        ),
        token.token_type.len() > 0 ==> fields_of_token(token).token_type == Some(
            token.token_type,
        ),
{
}

/// A token that names its scheme reads back from the record it is written
/// as. One whose scheme is empty does not: the scheme is left out, and
/// reads back as the bearer scheme.
pub proof fn lemma_written_reads_back(token: TokenView)
    ensures
        token.token_type.len() > 0 ==> token_of_fields(fields_of_token(token)) == token,
        token.token_type.len() == 0 ==> token_of_fields(fields_of_token(token)) == (TokenView {
            token_type: defaults::bearer(),
            ..token
        }),
{
    let read = token_of_fields(fields_of_token(token));
    assert(read.access_token =~= token.access_token);
    assert(read.refresh_token =~= token.refresh_token);
}

} // verus!
