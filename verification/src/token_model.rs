//! The data that a token carries and what is known of a token once it has
//! been minted or verified.

use vstd::prelude::*;

verus! {

/// The signed payload of a token: who it is for, which token it is, and the
/// window in which it is valid. Times are seconds since the Unix epoch.
#[derive(Debug)]
pub struct TokenClaims {
    pub sub: String,
    pub token_uuid: String,
    pub exp: i64,
    pub iat: i64,
}

/// The mathematical value of [`TokenClaims`].
pub struct ClaimsView {
    pub sub: Seq<char>,
    pub token_uuid: Seq<char>,
    pub exp: i64,
    pub iat: i64,
}

impl View for TokenClaims {
    type V = ClaimsView;

    open spec fn view(&self) -> ClaimsView {
        ClaimsView { sub: self.sub@, token_uuid: self.token_uuid@, exp: self.exp, iat: self.iat }
    }
}

/// What the service knows of one token: the signed text when it was just
/// minted, the token's own identifier, the principal it is for, and the
/// second at which it expires.
#[derive(Debug)]
pub struct TokenDetails {
    pub token: Option<String>,
    pub token_uuid: String,
    pub user_id: u64,
    pub expires_in: Option<i64>,
}

/// The mathematical value of [`TokenDetails`].
pub struct DetailsView {
    pub token: Option<Seq<char>>,
    pub token_uuid: Seq<char>,
    pub user_id: u64,
    pub expires_in: Option<i64>,
}

/// The view of an optional text.
pub open spec fn text_view(s: Option<String>) -> Option<Seq<char>> {
    match s {
        Some(t) => Some(t@),
        None => None,
    }
}

impl View for TokenDetails {
    type V = DetailsView;

    open spec fn view(&self) -> DetailsView {
        DetailsView {
            token: text_view(self.token),
            token_uuid: self.token_uuid@,
            user_id: self.user_id,
            expires_in: self.expires_in,
        }
    }
}

/// Whether a character is a lower-case hexadecimal digit.
pub open spec fn is_lower_hex(c: char) -> bool {
    48 <= c as u32 <= 57 || 97 <= c as u32 <= 102
}

/// Whether a position of a hyphenated identifier holds a hyphen.
pub open spec fn is_hyphen_position(i: int) -> bool {
    i == 8 || i == 13 || i == 18 || i == 23
}

/// Whether a text has the hyphenated lower-case shape of a token identifier:
/// 36 characters, hyphens after the groups of 8, 4, 4 and 4 hexadecimal
/// digits, lower-case hexadecimal digits elsewhere.
pub open spec fn is_token_uuid(s: Seq<char>) -> bool {
    &&& s.len() == 36
    &&& forall|i: int|
        0 <= i < 36 ==> if is_hyphen_position(i) {
            #[trigger] s[i] == '-'
        } else {
            is_lower_hex(s[i])
        }
}

/// Tests the shape of a token identifier.
pub fn check_token_uuid(s: &str) -> (ok: bool)
    ensures
        ok == is_token_uuid(s@),
{
    if s.unicode_len() != 36 {
        return false;
    }
    let mut i: usize = 0;
    while i < 36
        invariant
            0 <= i <= 36,
            s@.len() == 36,
            forall|j: int|
                0 <= j < i ==> if is_hyphen_position(j) {
                    #[trigger] s@[j] == '-'
                } else {
                    is_lower_hex(s@[j])
                },
        decreases 36 - i,
    {
        let c = s.get_char(i);
        let code: u32 = c as u32;
        let hyphen_here = i == 8 || i == 13 || i == 18 || i == 23;
        let fits = if hyphen_here {
            c == '-'
        } else {
            (48 <= code && code <= 57) || (97 <= code && code <= 102)
        };
        if !fits {
            assert(s@[i as int] == c);
            return false;
        }
        i = i + 1;
    }
    true
}

} // verus!
