//! The bearer token of the remote-procedure interface, as it is kept in
//! memory beside its file. Reading and writing the file is the caller's
//! part; what is decided here is what the token is and when the file has
//! to be written again.

use vstd::prelude::*;

verus! {

/// The text without the white space at its start and at its end.
pub uninterp spec fn trimmed(text: Seq<char>) -> Seq<char>;

/// `str::trim`: the text without leading and trailing white space. Claims
/// only that the result is a function of the text.
#[verifier::external_body]
fn trim(text: &str) -> (inner: String)
    ensures
        inner@ == trimmed(text@),
{
    text.trim().to_string()
}

/// The token in memory.
#[derive(Debug)]
pub struct TokenStore {
    token: String,
}

impl View for TokenStore {
    type V = Seq<char>;

    closed spec fn view(&self) -> Seq<char> {
        self.token@
    }
}

impl TokenStore {
    /// A store that holds `token`. The token is to be written to the
    /// store's file.
    pub fn with_token(token: String) -> (store: TokenStore)
        ensures
            store@ == token@,
    {
        TokenStore { token }
    }

    /// The store for a file with the given contents, or no store where the
    /// file does not exist. The token is the file's text without the white
    /// space around it.
    pub fn open(contents: Option<&str>) -> (store: Option<TokenStore>)
        ensures
            contents is None <==> store is None,
            contents matches Some(text) ==> store matches Some(s) && s@ == trimmed(text@),
    {
        match contents {
            Some(text) => Some(TokenStore { token: trim(text) }),
            None => None,
        }
    }

    /// The token.
    pub fn get(&self) -> (token: &String)
        ensures
            token@ == self@,
    {
        &self.token
    }

    /// Replaces the token. Tells whether the file has to be written again:
    /// it has exactly when the token changed.
    pub fn update(&mut self, next_token: String) -> (changed: bool)
        ensures
            final(self)@ == next_token@,
            changed == (old(self)@ != next_token@),
    {
        if self.token == next_token {
            return false;
        }
        self.token = next_token;
        true
    }
}

} // verus!
