//! The greeting formatter: builds the `Hello, <name>!` line.

use crate::args::Config;
use crate::json::escape_spec;
use crate::json::json_escape;
use vstd::prelude::*;

verus! {

/// The greeting line for a user name: `Hello, <user>!`.
pub open spec fn greeting_spec(user: Seq<char>) -> Seq<char> {
    "Hello, "@ + user + "!"@
}

/// Builds the greeting line for the given user name.
pub fn greeting(user: &str) -> (r: String)
    ensures
        r@ == greeting_spec(user@),
{
    let mut s = "Hello, ".to_owned();
    s.append(user);
    s.append("!");
    proof {
        assert(s@ =~= greeting_spec(user@));
    }
    s
}

/// The one-field JSON object that carries a message string.
pub open spec fn json_object_spec(m: Seq<char>) -> Seq<char> {
    "{\"message\": \""@ + escape_spec(m) + "\"}"@
}

/// A message ready to be written out, in plain text or as JSON.
pub struct Output {
    pub message: String,
}

impl Output {
    /// The message wrapped in a one-field JSON object, with the message
    /// value escaped per JSON string escaping rules.
    pub fn to_json(&self) -> (r: String)
        ensures
            r@ == json_object_spec(self.message@),
    {
        let mut out = "{\"message\": \"".to_owned();
        let escaped = json_escape(self.message.as_str());
        out.append(escaped.as_str());
        out.append("\"}");
        proof {
            assert(out@ =~= json_object_spec(self.message@));
        }
        out
    }

    /// The message itself, unchanged.
    pub fn to_plain_text(&self) -> (r: String)
        ensures
            r@ == self.message@,
    {
        self.message.clone()
    }
}

/// The line a configuration makes the program print: the greeting itself in
/// plain mode, the greeting wrapped in a JSON object in JSON mode.
pub open spec fn render_spec(user: Seq<char>, json: bool) -> Seq<char> {
    if json {
        json_object_spec(greeting_spec(user))
    } else {
        greeting_spec(user)
    }
}

/// Builds the output line for a configuration.
pub fn render(config: &Config) -> (r: String)
    ensures
        r@ == render_spec(config.user@, config.json),
{
    let output = Output { message: greeting(config.user.as_str()) };
    if config.json {
        output.to_json()
    } else {
        output.to_plain_text()
    }
}

} // verus!
