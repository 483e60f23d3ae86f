//! The authentication methods that a definition may ask SSH to use.

use vstd::prelude::*;

use crate::text::same_text;

verus! {

/// How the SSH transport authenticates.
#[derive(Debug, Clone, Copy, PartialEq, Eq, Structural)]
pub enum AuthType {
    PublicKey,
    /// Not an SSH method: no preferred method and no identity are passed,
    /// so that a running SSH agent takes over.
    AuthenticationAgent,
    Password,
    KeyboardInteractive,
    HostBased,
    GSSAPIWithMic,
}

impl AuthType {
    /// The stable textual token of the method.
    pub open spec fn token(self) -> Seq<char> {
        match self {
            AuthType::PublicKey => "publickey"@,
            AuthType::AuthenticationAgent => "authentication-agent"@,
            AuthType::Password => "password"@,
            AuthType::KeyboardInteractive => "keyboard-interactive"@,
            AuthType::HostBased => "hostbased"@,
            AuthType::GSSAPIWithMic => "gssapi-with-mic"@,
        }
    }

    /// The method whose token is `s`, if any.
    pub open spec fn parse(s: Seq<char>) -> Option<AuthType> {
        if s == "publickey"@ {
            Some(AuthType::PublicKey)
        } else if s == "authentication-agent"@ {
            Some(AuthType::AuthenticationAgent)
        } else if s == "password"@ {
            Some(AuthType::Password)
        } else if s == "keyboard-interactive"@ {
            Some(AuthType::KeyboardInteractive)
        } else if s == "hostbased"@ {
            Some(AuthType::HostBased)
        } else if s == "gssapi-with-mic"@ {
            Some(AuthType::GSSAPIWithMic)
        } else {
            None
        }
    }

    /// The six methods, in declaration order.
    pub fn all() -> (r: Vec<AuthType>)
        ensures
            r@ == seq![
                AuthType::PublicKey,
                AuthType::AuthenticationAgent,
                AuthType::Password,
                AuthType::KeyboardInteractive,
                AuthType::HostBased,
                AuthType::GSSAPIWithMic,
            ],
    {
        let r = vec![
            AuthType::PublicKey,
            AuthType::AuthenticationAgent,
            AuthType::Password,
            AuthType::KeyboardInteractive,
            AuthType::HostBased,
            AuthType::GSSAPIWithMic,
        ];
        assert(r@ =~= seq![
            AuthType::PublicKey,
            AuthType::AuthenticationAgent,
            AuthType::Password,
            AuthType::KeyboardInteractive,
            AuthType::HostBased,
            AuthType::GSSAPIWithMic,
        ]);
        r
    }

    /// The textual token of the method, as stored and as handed to SSH.
    pub fn to_static_str(&self) -> (r: &'static str)
        ensures
            r@ == self.token(),
    {
        match self {
            AuthType::PublicKey => "publickey",
            AuthType::AuthenticationAgent => "authentication-agent",
            AuthType::Password => "password",
            AuthType::KeyboardInteractive => "keyboard-interactive",
            AuthType::HostBased => "hostbased",
            AuthType::GSSAPIWithMic => "gssapi-with-mic",
        }
    }

    /// Reads a method back from its token; any other text is refused.
    pub fn from_string(s: &str) -> (r: Result<AuthType, &'static str>)
        ensures
            r is Ok <==> AuthType::parse(s@) is Some,
            r is Ok ==> AuthType::parse(s@) == Some(r->Ok_0),
    {
        if same_text(s, "publickey") {
            Ok(AuthType::PublicKey)
        } else if same_text(s, "authentication-agent") {
            Ok(AuthType::AuthenticationAgent)
        } else if same_text(s, "password") {
            Ok(AuthType::Password)
        } else if same_text(s, "keyboard-interactive") {
            Ok(AuthType::KeyboardInteractive)
        } else if same_text(s, "hostbased") {
            Ok(AuthType::HostBased)
        } else if same_text(s, "gssapi-with-mic") {
            Ok(AuthType::GSSAPIWithMic)
        } else {
            Err("Unexpected string value")
        }
    }
}

/// Reading back the token of a method gives that method: the stored
/// form of the authentication type survives a write and a read.
pub proof fn lemma_token_round_trip(a: AuthType)
    ensures
        AuthType::parse(a.token()) == Some(a),
{
    reveal_strlit("publickey");
    reveal_strlit("authentication-agent");
    reveal_strlit("password");
    reveal_strlit("keyboard-interactive");
    reveal_strlit("hostbased");
    reveal_strlit("gssapi-with-mic");
    let p = "publickey"@;
    let g = "authentication-agent"@;
    let w = "password"@;
    let k = "keyboard-interactive"@;
    let h = "hostbased"@;
    let m = "gssapi-with-mic"@;
    assert(g != p) by { assert(g.len() != p.len()); }
    assert(w != p && w != g) by { assert(w.len() != p.len() && w.len() != g.len()); }
    assert(k != p && k != g && k != w) by { assert(k.len() != p.len() && k[0] != g[0] && k.len() != w.len()); }
    assert(h != p && h != g && h != w && h != k) by {
        assert(h[0] != p[0] && h[0] != g[0] && h[0] != w[0] && h[0] != k[0]);
    }
    assert(m != p && m != g && m != w && m != k && m != h) by {
        assert(m[0] != p[0] && m[0] != g[0] && m[0] != w[0] && m[0] != k[0] && m[0] != h[0]);
    }
}

} // verus!
