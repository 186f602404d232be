//! What is settled at startup.

use vstd::prelude::*;
use vstd::string::StringExecFns;
use crate::screen::Edge;

verus! {

/// The port that the controller listens on unless told otherwise.
pub const DEFAULT_PORT: u16 = 24800;

/// The address that the controller listens on unless told otherwise.
pub const DEFAULT_BIND: &'static str = "0.0.0.0:24800";

/// The name of the edge behind which the peers are unless told otherwise.
pub const DEFAULT_DIRECTION: &'static str = "right";

/// Why the program cannot start.
#[derive(Debug, Clone, Copy, PartialEq, Eq, Structural)]
pub enum ConfigError {
    /// The direction is none of `left`, `right`, `top` and `bottom`.
    UnknownDirection,
}

/// The lower-case form of a string, as `str::to_lowercase` gives it.
pub uninterp spec fn lowercased(s: Seq<char>) -> Seq<char>;

/// `str::to_lowercase`: the lower-case form of `s`, which depends on
/// nothing but `s`.
#[verifier::external_body]
fn to_lowercase(s: &str) -> (lower: String)
    ensures
        lower@ == lowercased(s@),
{
    s.to_lowercase()
}

/// The edge that a lower-case name stands for.
pub open spec fn edge_named(name: Seq<char>) -> Option<Edge> {
    if name == "left"@ {
        Some(Edge::Left)
    } else if name == "right"@ {
        Some(Edge::Right)
    } else if name == "top"@ {
        Some(Edge::Top)
    } else if name == "bottom"@ {
        Some(Edge::Bottom)
    } else {
        None
    }
}

/// The edge that the lower-case name `name` stands for, or the error for
/// a name that stands for none.
pub fn direction_from_lower(name: &String) -> (edge: Result<Edge, ConfigError>)
    ensures
        edge == match edge_named(name@) {
            Some(e) => Ok::<Edge, ConfigError>(e),
            None => Err::<Edge, ConfigError>(ConfigError::UnknownDirection),
        },
{
    if *name == String::from_str("left") {
        Ok(Edge::Left)
    } else if *name == String::from_str("right") {
        Ok(Edge::Right)
    } else if *name == String::from_str("top") {
        Ok(Edge::Top)
    } else if *name == String::from_str("bottom") {
        Ok(Edge::Bottom)
    } else {
        Err(ConfigError::UnknownDirection)
    }
}

/// The edge behind which the peers are, from its name in any mix of upper
/// and lower case.
pub fn parse_direction(s: &str) -> (edge: Result<Edge, ConfigError>)
    ensures
        edge == match edge_named(lowercased(s@)) {
            Some(e) => Ok::<Edge, ConfigError>(e),
            None => Err::<Edge, ConfigError>(ConfigError::UnknownDirection),
        },
{
    let lower = to_lowercase(s);
    direction_from_lower(&lower)
}

} // verus!
