//! Running-application bookkeeping and the decisions of the activation and
//! frontmost-application flows.

use vstd::prelude::*;
use crate::text::str_eq;

verus! {

/// One running application, as handed over the RPC boundary.
#[derive(Debug, Clone)]
pub struct RunningAppInfo {
    pub bundle_identifier: String,
    pub localized_name: String,
    pub is_active: bool,
    pub is_hidden: bool,
}

/// The bookkeeping of running applications.
pub struct WorkspaceState {
    running_apps: Vec<RunningAppInfo>,
}

impl WorkspaceState {
    /// The recorded applications.
    pub closed spec fn apps(self) -> Seq<RunningAppInfo> {
        self.running_apps@
    }

    /// An empty record.
    pub fn new() -> (r: Self)
        ensures
            r.apps() == Seq::<RunningAppInfo>::empty(),
    {
        let r = WorkspaceState { running_apps: Vec::new() };
        proof {
            assert(r.apps() =~= Seq::<RunningAppInfo>::empty());
        }
        r
    }
}

/// A name reading taken from one running application: the native name
/// pointer may be absent.
pub open spec fn name_matches(name: Option<String>, target: Seq<char>) -> bool {
    name matches Some(n) && n@ == target
}

/// Finds the first running application whose (present) localized name
/// equals `target` — the lookup step of the activation flow, applied to the
/// names read from the native workspace in order.
pub fn find_first_named(names: &Vec<Option<String>>, target: &str) -> (r: Option<usize>)
    ensures
        r matches Some(i) ==> i < names@.len() && name_matches(names@[i as int], target@) && forall|
            j: int,
        | 0 <= j < i ==> !name_matches(names@[j], target@),
        r is None ==> forall|j: int| 0 <= j < names@.len() ==> !name_matches(names@[j], target@),
{
    let mut i: usize = 0;
    while i < names.len()
        invariant
            i <= names@.len(),
            forall|j: int| 0 <= j < i ==> !name_matches(names@[j], target@),
        decreases names@.len() - i,
    {
        match &names[i] {
            Some(n) => {
                if str_eq(n.as_str(), target) {
                    return Some(i);
                }
            },
            None => {},
        }
        i += 1;
    }
    None
}

/// How the activation flow answers: a successful native activation is
/// reported as such, and anything else — name not found, or the native
/// activation call refusing — is the fixed error around the name.
pub fn activation_outcome(activated: bool, app_name: &str) -> (r: Result<bool, String>)
    ensures
        activated ==> r == Ok::<bool, String>(true),
        !activated ==> (r matches Err(m) && m@ == "Application '"@ + app_name@
            + "' not found or could not be activated"@),
{
    if activated {
        Ok(true)
    } else {
        Err(
            String::from_str("Application '").concat(app_name).concat(
                "' not found or could not be activated",
            ),
        )
    }
}

/// What the native workspace yielded for the frontmost application.
pub enum FrontmostReading {
    /// No frontmost application at all.
    NoApplication,
    /// A frontmost application without a readable name.
    NoName,
    /// The frontmost application's localized name.
    Name(String),
}

/// How the frontmost-application flow answers each reading.
pub fn frontmost_outcome(reading: FrontmostReading) -> (r: Result<String, String>)
    ensures
        reading is NoApplication ==> (r matches Err(m) && m@
            == "No frontmost application found"@),
        reading is NoName ==> (r matches Err(m) && m@
            == "Could not get name of frontmost application"@),
        reading matches FrontmostReading::Name(n) ==> (r matches Ok(o) && o == n),
{
    match reading {
        FrontmostReading::NoApplication => Err(String::from_str("No frontmost application found")),
        FrontmostReading::NoName => Err(
            String::from_str("Could not get name of frontmost application"),
        ),
        FrontmostReading::Name(n) => Ok(n),
    }
}

} // verus!
