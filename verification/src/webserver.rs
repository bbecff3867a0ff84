//! The web API of the LED: `POST /color/<name>` sets the color and answers with it in JSON,
//! and the numbering of the connection runners that serve it.

use vstd::prelude::*;

use crate::color::{color_name, parse_color, Color, NoSuchColor};

verus! {

/// The JSON body answering a color change: `{"color":"<name>"}`.
pub open spec fn color_json_body(c: Color) -> Seq<char> {
    seq!['{', '"', 'c', 'o', 'l', 'o', 'r', '"', ':', '"'] + color_name(c) + seq!['"', '}']
}

/// The JSON body confirming that the LED was set to `color`.
pub fn color_json(color: Color) -> (r: &'static str)
    ensures
        r@ == color_json_body(color),
{
    match color {
        Color::Red => {
            let s = r#"{"color":"red"}"#;
            proof {
                reveal_strlit(r#"{"color":"red"}"#);
            }
            assert(s@ =~= color_json_body(color));
            s
        },
        Color::Green => {
            let s = r#"{"color":"green"}"#;
            proof {
                reveal_strlit(r#"{"color":"green"}"#);
            }
            assert(s@ =~= color_json_body(color));
            s
        },
        Color::Blue => {
            let s = r#"{"color":"blue"}"#;
            proof {
                reveal_strlit(r#"{"color":"blue"}"#);
            }
            assert(s@ =~= color_json_body(color));
            s
        },
    }
}

/// Handles `POST /color/<segment>`: the color to set and the body to answer with, or the
/// error when the segment names no color (the route then does not match).
pub fn handle_color_post(segment: &str) -> (r: Result<(Color, &'static str), NoSuchColor>)
    ensures
        r is Err <==> parse_color(segment@) is None,
        r matches Ok((c, body)) ==> parse_color(segment@) == Some(c) && body@ == color_json_body(c),
{
    match Color::from_str(segment) {
        Ok(color) => Ok((color, color_json(color))),
        Err(e) => Err(e),
    }
}

/// One webserver connection runner: its number and what it shares with the other runners.
pub struct WebserverRunner<S> {
    pub id: usize,
    pub shared: S,
}

/// Hands out runners numbered 0, 1, 2, ..., each with a copy of the shared server state.
pub struct WebserverRunnerFactory<S> {
    next_id: usize,
    shared: S,
}

impl<S: Clone> WebserverRunnerFactory<S> {
    /// The number the next runner will get.
    pub closed spec fn next_id_spec(&self) -> usize {
        self.next_id
    }

    /// The state every runner gets a copy of.
    pub closed spec fn shared_spec(&self) -> S {
        self.shared
    }

    /// A factory whose first runner will be number 0, sharing `shared` with its runners.
    pub fn new(shared: S) -> (r: Self)
        ensures
            r.next_id_spec() == 0,
            r.shared_spec() == shared,
    {
        WebserverRunnerFactory { next_id: 0, shared }
    }

    /// The number the next runner will get.
    pub fn next_id(&self) -> (r: usize)
        ensures
            r == self.next_id_spec(),
    {
        self.next_id
    }

    /// Creates the next runner, with a clone of the shared state.
    pub fn new_runner(&mut self) -> (r: WebserverRunner<S>)
        requires
            old(self).next_id_spec() < usize::MAX,
        ensures
            r.id == old(self).next_id_spec(),
            final(self).next_id_spec() == old(self).next_id_spec() + 1,
            cloned(old(self).shared_spec(), r.shared),
            final(self).shared_spec() == old(self).shared_spec(),
    {
        let runner = WebserverRunner { id: self.next_id, shared: self.shared.clone() };
        self.next_id = self.next_id + 1;
        runner
    }
}

/// The body names the color that was set, so parsing it back gives that color.
pub proof fn lemma_body_names_color(c: Color)
    ensures
        color_json_body(c).subrange(10, color_json_body(c).len() - 2) == color_name(c),
{
    assert(color_json_body(c).subrange(10, color_json_body(c).len() - 2) =~= color_name(c));
}

} // verus!
