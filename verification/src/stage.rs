//! The deployment stage of the surrounding service.

use vstd::prelude::*;
use crate::strutil::str_eq;

verus! {

/// Deployment stage; `Development` is the default.
#[derive(Clone, Copy, Debug, PartialEq, Eq, Structural)]
pub enum Stage {
    Local,
    Development,
    Production,
}

impl Default for Stage {
    /// The stage assumed when none is configured.
    fn default() -> (r: Self)
        ensures
            r == Stage::Development,
    {
        Stage::Development
    }
}

impl Stage {
    /// The view of the textual name of each stage.
    pub open spec fn spec_name(self) -> Seq<char> {
        match self {
            Stage::Local => "Local"@,
            Stage::Development => "Development"@,
            Stage::Production => "Production"@,
        }
    }

    /// The textual name of the stage.
    pub fn name(&self) -> (r: &'static str)
        ensures
            r@ == self.spec_name(),
    {
        match self {
            Stage::Local => "Local",
            Stage::Development => "Development",
            Stage::Production => "Production",
        }
    }

    /// Parses a textual stage name; returns `None` on any string that is
    /// not the name of a stage.
    pub fn parse(s: &str) -> (r: Option<Stage>)
        ensures
            match r {
                Some(st) => s@ == st.spec_name(),
                None => forall|st: Stage| s@ != st.spec_name(),
            },
    {
        proof {
            reveal_strlit("Local");
            reveal_strlit("Development");
            reveal_strlit("Production");
        }
        if str_eq(s, "Local") {
            Some(Stage::Local)
        } else if str_eq(s, "Development") {
            Some(Stage::Development)
        } else if str_eq(s, "Production") {
            Some(Stage::Production)
        } else {
            assert forall|st: Stage| s@ != st.spec_name() by {
                match st {
                    Stage::Local => {},
                    Stage::Development => {},
                    Stage::Production => {},
                }
            }
            None
        }
    }

    /// Parses a textual stage name, falling back to the default stage on
    /// anything unrecognised.
    pub fn parse_or_default(s: &str) -> (r: Stage)
        ensures
            s@ == r.spec_name() || (r == Stage::Development && forall|st: Stage|
                s@ != st.spec_name()),
    {
        match Stage::parse(s) {
            Some(st) => st,
            None => Stage::Development,
        }
    }
}

} // verus!
