//! Data model of the backend's health snapshot: tools, profiles, and the
//! whole-application status, together with their mathematical views.

use vstd::prelude::*;

verus! {

/// Display class of a single tool's reported status string.
///
/// The backend reports a free-form string; `ok`, `idle` and `warning` are the
/// recognized values, and anything else is shown as the most severe class.
#[derive(Clone, Copy, Debug, PartialEq, Eq, Structural)]
pub enum ToolClass {
    Good,
    Idle,
    Warning,
    Problem,
}

/// Health entry for one tool inside a profile.
#[derive(Debug, PartialEq)]
pub struct ToolStatus {
    pub name: String,
    pub status: String,
}

/// Mathematical view of a `ToolStatus`.
pub struct ToolStatusV {
    pub name: Seq<char>,
    pub status: Seq<char>,
}

impl View for ToolStatus {
    type V = ToolStatusV;

    open spec fn view(&self) -> ToolStatusV {
        ToolStatusV { name: self.name@, status: self.status@ }
    }
}

impl Clone for ToolStatus {
    fn clone(&self) -> (res: Self)
        ensures
            res@ == self@,
    {
        ToolStatus { name: self.name.clone(), status: self.status.clone() }
    }
}

/// Status of one named profile, as reported by the backend.
#[derive(Debug, PartialEq)]
pub struct ProfileStatus {
    pub id: String,
    pub running: bool,
    pub active_tools: i32,
    pub tool_status: Option<Vec<ToolStatus>>,
}

/// Mathematical view of a `ProfileStatus`.
pub struct ProfileStatusV {
    pub id: Seq<char>,
    pub running: bool,
    pub active_tools: i32,
    pub tool_status: Option<Seq<ToolStatusV>>,
}

impl View for ProfileStatus {
    type V = ProfileStatusV;

    open spec fn view(&self) -> ProfileStatusV {
        ProfileStatusV {
            id: self.id@,
            running: self.running,
            active_tools: self.active_tools,
            tool_status: match self.tool_status {
                Some(ts) => Some(ts@.map_values(|t: ToolStatus| t@)),
                None => None,
            },
        }
    }
}

impl Clone for ProfileStatus {
    fn clone(&self) -> (res: Self)
        ensures
            res@ == self@,
    {
        let tool_status: Option<Vec<ToolStatus>> = match &self.tool_status {
            Some(ts) => Some(clone_tool_list(ts)),
            None => None,
        };
        let res = ProfileStatus {
            id: self.id.clone(),
            running: self.running,
            active_tools: self.active_tools,
            tool_status,
        };
        proof {
            assert(res@.tool_status == self@.tool_status);
        }
        res
    }
}

/// Clones a list of tool entries, preserving its view.
fn clone_tool_list(ts: &Vec<ToolStatus>) -> (res: Vec<ToolStatus>)
    ensures
        res@.map_values(|t: ToolStatus| t@) == ts@.map_values(|t: ToolStatus| t@),
{
    let mut res: Vec<ToolStatus> = Vec::new();
    let mut i: usize = 0;
    while i < ts.len()
        invariant
            i <= ts@.len(),
            res@.len() == i,
            forall|k: int| 0 <= k < i ==> res@[k]@ == ts@[k]@,
        decreases ts@.len() - i,
    {
        res.push(ts[i].clone());
        i = i + 1;
    }
    proof {
        assert(res@.map_values(|t: ToolStatus| t@) =~= ts@.map_values(|t: ToolStatus| t@));
    }
    res
}

/// One complete, internally consistent read of backend status.
///
/// A snapshot is either fully present (every field populated from one
/// successful parse) or entirely absent; absence is represented by
/// `Option::<AppStatus>::None` at the call sites that consume snapshots.
#[derive(Debug, PartialEq)]
pub struct AppStatus {
    pub gateway_running: bool,
    pub control_port: u16,
    pub mcp_port: u16,
    pub active_profile_id: String,
    pub profiles: Vec<ProfileStatus>,
}

/// Mathematical view of an `AppStatus`.
pub struct AppStatusV {
    pub gateway_running: bool,
    pub control_port: u16,
    pub mcp_port: u16,
    pub active_profile_id: Seq<char>,
    pub profiles: Seq<ProfileStatusV>,
}

impl View for AppStatus {
    type V = AppStatusV;

    open spec fn view(&self) -> AppStatusV {
        AppStatusV {
            gateway_running: self.gateway_running,
            control_port: self.control_port,
            mcp_port: self.mcp_port,
            active_profile_id: self.active_profile_id@,
            profiles: self.profiles@.map_values(|p: ProfileStatus| p@),
        }
    }
}

impl Clone for AppStatus {
    fn clone(&self) -> (res: Self)
        ensures
            res@ == self@,
    {
        let mut profiles: Vec<ProfileStatus> = Vec::new();
        let mut i: usize = 0;
        while i < self.profiles.len()
            invariant
                i <= self.profiles@.len(),
                profiles@.len() == i,
                forall|k: int| 0 <= k < i ==> profiles@[k]@ == self.profiles@[k]@,
            decreases self.profiles@.len() - i,
        {
            profiles.push(self.profiles[i].clone());
            i = i + 1;
        }
        let res = AppStatus {
            gateway_running: self.gateway_running,
            control_port: self.control_port,
            mcp_port: self.mcp_port,
            active_profile_id: self.active_profile_id.clone(),
            profiles,
        };
        proof {
            assert(res@.profiles =~= self@.profiles);
        }
        res
    }
}

/// View of an optional snapshot: `None` stands for "unknown/unreachable".
pub open spec fn snapshot_view(o: Option<AppStatus>) -> Option<AppStatusV> {
    match o {
        Some(s) => Some(s@),
        None => None,
    }
}

impl AppStatusV {
    /// A well-formed snapshot has profile ids unique within the snapshot.
    pub open spec fn wf(self) -> bool {
        forall|i: int, j: int|
            0 <= i < j < self.profiles.len() ==> self.profiles[i].id != self.profiles[j].id
    }
}

/// The fixed mapping from a reported tool-status string to its display class.
pub open spec fn classify_spec(status: Seq<char>) -> ToolClass {
    if status == "ok"@ {
        ToolClass::Good
    } else if status == "idle"@ {
        ToolClass::Idle
    } else if status == "warning"@ {
        ToolClass::Warning
    } else {
        ToolClass::Problem
    }
}

/// Maps a reported tool-status string to its display class.
pub fn classify(status: &String) -> (c: ToolClass)
    ensures
        c == classify_spec(status@),
{
    let ok: String = "ok".to_owned();
    let idle: String = "idle".to_owned();
    let warning: String = "warning".to_owned();
    if *status == ok {
        ToolClass::Good
    } else if *status == idle {
        ToolClass::Idle
    } else if *status == warning {
        ToolClass::Warning
    } else {
        ToolClass::Problem
    }
}

} // verus!
