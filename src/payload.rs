//! What each transport is handed: the JSON payload for the remote service
//! and the argument list for the companion executable.
use vstd::prelude::*;
use crate::json::{json_string_literal, quote};
use crate::validate::LimitRequest;

verus! {

/// The secrets that the two transports need, supplied at startup.
pub struct Credentials {
    quoted_key: String,
    passcode: String,
}

impl Credentials {
    /// The authorization key, as the JSON string literal that the payload holds.
    pub closed spec fn key_literal(&self) -> Seq<char> {
        self.quoted_key@
    }

    /// The passcode handed to the companion executable.
    pub closed spec fn passcode_text(&self) -> Seq<char> {
        self.passcode@
    }

    /// Takes the authorization key of the remote service and the passcode of
    /// the companion executable; the key is kept as a JSON string literal.
    pub fn new(authorization_key: &str, passcode: &str) -> (r: Credentials)
        ensures
            r.key_literal() == json_string_literal(authorization_key@),
            r.passcode_text() == passcode@,
    {
        let quoted_key = match quote(authorization_key) {
            Ok(q) => q,
            Err(_) => {
                proof {
                    assert(false);
                }
                String::new()
            },
        };
        Credentials { quoted_key, passcode: String::from_str(passcode) }
    }
}

/// The payload for field texts `f` (in the order of `request_fields`) and the
/// key literal `key`: one JSON object with a member for each field and the
/// key under `auth.authorization_key`.
pub open spec fn payload_text(f: Seq<Seq<char>>, key: Seq<char>) -> Seq<char> {
    "{\"node0\":"@ + f[0]
        + ",\"node1\":"@ + f[1]
        + ",\"environment\":"@ + f[2]
        + ",\"size\":"@ + f[3]
        + ",\"goal\":"@ + f[4]
        + ",\"obstacles\":"@ + f[5]
        + ",\"search_radius\":"@ + f[6]
        + ",\"sample_points\":"@ + f[7]
        + ",\"auth\":{\"authorization_key\":"@ + key
        + "}}"@
}

/// The arguments of the companion executable: the passcode, then the field
/// texts in the order of `request_fields`.
pub open spec fn argument_list(passcode: Seq<char>, f: Seq<Seq<char>>) -> Seq<Seq<char>> {
    seq![passcode] + f
}

/// The texts of a list of strings.
pub open spec fn texts(v: Seq<String>) -> Seq<Seq<char>> {
    v.map_values(|s: String| s@)
}

impl LimitRequest {
    /// Builds the request payload for the remote service. Where no obstacles
    /// were given, the payload holds an empty list for them.
    pub fn payload(&self, credentials: &Credentials) -> (r: String)
        ensures
            r@ == payload_text(self.fields(), credentials.key_literal()),
    {
        let mut s = String::from_str("{\"node0\":");
        s.append(self.field(0).as_str());
        s.append(",\"node1\":");
        s.append(self.field(1).as_str());
        s.append(",\"environment\":");
        s.append(self.field(2).as_str());
        s.append(",\"size\":");
        s.append(self.field(3).as_str());
        s.append(",\"goal\":");
        s.append(self.field(4).as_str());
        s.append(",\"obstacles\":");
        s.append(self.field(5).as_str());
        s.append(",\"search_radius\":");
        s.append(self.field(6).as_str());
        s.append(",\"sample_points\":");
        s.append(self.field(7).as_str());
        s.append(",\"auth\":{\"authorization_key\":");
        s.append(credentials.quoted_key.as_str());
        s.append("}}");
        s
    }

    /// Builds the argument list for the companion executable: the passcode,
    /// then the same field texts that the payload holds, in the same order.
    pub fn executable_args(&self, credentials: &Credentials) -> (r: Vec<String>)
        ensures
            texts(r@) == argument_list(credentials.passcode_text(), self.fields()),
    {
        let mut args: Vec<String> = Vec::new();
        args.push(credentials.passcode.clone());
        let first = self.field(0);
        args.push(first);
        let mut i: usize = 1;
        while i < 8
            invariant
                1 <= i <= 8,
                self.fields().len() == 8,
                args@.len() == i + 1,
                args@[0]@ == credentials.passcode_text(),
                forall|k: int| 0 <= k < i ==> (#[trigger] args@[k + 1])@ == self.fields()[k],
            decreases 8 - i,
        {
            args.push(self.field(i));
            i = i + 1;
        }
        proof {
            assert forall|k: int| 0 <= k < 9 implies texts(args@)[k] == argument_list(credentials.passcode_text(), self.fields())[k] by {
                if k > 0 {
                    assert(args@[(k - 1) + 1]@ == self.fields()[k - 1]);
                }
            }
            assert(texts(args@) =~= argument_list(credentials.passcode_text(), self.fields()));
        }
        args
    }
}

} // verus!
