//! The credentials that a Subsonic server asks for.

use crate::comm::{is_alphanumeric, random_text};
use crate::text::from_chars;
use md5::Digest;
use vstd::prelude::*;

verus! {

/// The credentials of a user of a Subsonic server.
pub struct SubsonicAuth {
    username: String,
    password: String,
    use_token: bool,
}

/// The MD5 digest of bytes: the sixteen bytes that `md5::Md5` computes.
pub uninterp spec fn md5_of(bytes: Seq<u8>) -> Seq<u8>;

/// The lower-case hexadecimal digit of a number below sixteen.
pub open spec fn hex_digit(n: nat) -> char {
    if n < 10 {
        ((0x30 + n) as u8) as char
    } else {
        ((0x61 + n - 10) as u8) as char
    }
}

/// Bytes written as lower-case hexadecimal digits, two for each byte.
pub open spec fn hex_text(bytes: Seq<u8>) -> Seq<char> {
    Seq::new(
        2 * bytes.len(),
        |i: int|
            if i % 2 == 0 {
                hex_digit((bytes[i / 2] / 16) as nat)
            } else {
                hex_digit((bytes[i / 2] % 16) as nat)
            },
    )
}

/// The token that proves the password: the hexadecimal text of the MD5
/// digest of the password followed by the salt, both as UTF-8.
pub open spec fn token_of(password: Seq<char>, salt: Seq<char>) -> Seq<char> {
    hex_text(md5_of(vstd::utf8::encode_utf8(password + salt)))
}

/// The MD5 digest of bytes. Wraps `md5::Digest::digest` of `md5::Md5`.
#[verifier::external_body]
fn md5_digest(bytes: &Vec<u8>) -> (r: Vec<u8>)
    ensures
        r@ == md5_of(bytes@),
{
    md5::Md5::digest(bytes).to_vec()
}

/// Bytes as lower-case hexadecimal text. Wraps `hex::encode`, which writes
/// two digits for each byte, the high half first.
#[verifier::external_body]
fn hex_encode(bytes: &Vec<u8>) -> (r: String)
    ensures
        r@ == hex_text(bytes@),
{
    hex::encode(bytes)
}

impl SubsonicAuth {
    /// The credentials of `username`. With `use_token` the password is not
    /// sent, but a token made of it and a fresh salt.
    pub fn new(username: String, password: String, use_token: bool) -> (r: Self)
        ensures
            r.name() == username@,
            r.secret() == password@,
            r.uses_token() == use_token,
    {
        Self { username, password, use_token }
    }

    /// The name of the user.
    pub closed spec fn name(&self) -> Seq<char> {
        self.username@
    }

    /// The password of the user.
    pub closed spec fn secret(&self) -> Seq<char> {
        self.password@
    }

    /// Whether a token is sent in place of the password.
    pub closed spec fn uses_token(&self) -> bool {
        self.use_token
    }

    /// The parameters of a request that say who asks: the user `u` and
    /// either the token `t` with its salt `s`, or the password `p`.
    pub fn get_auth_params(&self) -> (r: Vec<(&'static str, String)>)
        ensures
            r@.len() == if self.uses_token() {
                3int
            } else {
                2int
            },
            r@[0].0@ == "u"@,
            r@[0].1@ == self.name(),
            !self.uses_token() ==> r@[1].0@ == "p"@ && r@[1].1@ == self.secret(),
            self.uses_token() ==> {
                &&& r@[1].0@ == "t"@
                &&& r@[1].1@ == token_of(self.secret(), r@[2].1@)
                &&& r@[2].0@ == "s"@
                &&& r@[2].1@.len() == 16
                &&& forall|i: int| 0 <= i < 16 ==> is_alphanumeric(#[trigger] r@[2].1@[i])
            },
    {
        let mut params: Vec<(&'static str, String)> = Vec::new();
        params.push(("u", self.username.clone()));
        if self.use_token {
            let salt = self.generate_salt();
            let token = self.generate_token(salt.as_str());
            params.push(("t", token));
            params.push(("s", salt));
        } else {
            params.push(("p", self.password.clone()));
        }
        params
    }

    /// A fresh salt of sixteen random letters and digits.
    pub fn generate_salt(&self) -> (r: String)
        ensures
            r@.len() == 16,
            forall|i: int| 0 <= i < 16 ==> is_alphanumeric(#[trigger] r@[i]),
    {
        from_chars(&random_text(16))
    }

    /// The token for a salt.
    pub fn generate_token(&self, salt: &str) -> (r: String)
        ensures
            r@ == token_of(self.secret(), salt@),
    {
        let mut raw = self.password.clone();
        raw.append(salt);
        let bytes = raw.as_str().as_bytes_vec();
        let digest = md5_digest(&bytes);
        hex_encode(&digest)
    }
}

} // verus!
