//! Control-surface rendering: a pure function from an optional snapshot to a
//! menu description, and the total icon-class selection. Widget construction
//! and icon asset loading are left to the surrounding application; this module
//! only decides what is shown.

use vstd::prelude::*;

use crate::status::{
    classify, classify_spec, snapshot_view, AppStatus, AppStatusV, ProfileStatusV, ToolClass,
    ToolStatusV,
};

verus! {

/// One entry of the rendered tray menu.
///
/// Entries are tagged variants rather than free-form strings, so an operator
/// event can be dispatched on the variant instead of re-parsing an
/// identifier. Header variants render as disabled lines; `ToolLine`,
/// `RestartAction`, `ShowAction` and `QuitAction` are selectable.
#[derive(Debug, PartialEq)]
pub enum MenuEntry {
    /// Disabled placeholder while no snapshot has been accepted yet.
    Connecting,
    /// Disabled header stating running/stopped and the externally facing port.
    GatewayHeader { running: bool, port: u16 },
    /// Visual divider.
    Separator,
    /// Disabled header naming the active profile, when one is set.
    ActiveProfileHeader { id: String },
    /// Disabled label for a running profile with at least one tool entry.
    ProfileHeader { id: String, active: bool },
    /// Selectable line for one tool, prefixed by the glyph of its class.
    ToolLine { name: String, class: ToolClass },
    /// Disabled line shown when no profile produced any tool lines.
    NoTools,
    /// Requests the full backend restart sequence.
    RestartAction,
    /// Brings the dashboard window to the foreground.
    ShowAction,
    /// Terminates the whole application.
    QuitAction,
}

/// Mathematical view of a `MenuEntry`.
pub enum MenuEntryV {
    Connecting,
    GatewayHeader { running: bool, port: u16 },
    Separator,
    ActiveProfileHeader { id: Seq<char> },
    ProfileHeader { id: Seq<char>, active: bool },
    ToolLine { name: Seq<char>, class: ToolClass },
    NoTools,
    RestartAction,
    ShowAction,
    QuitAction,
}

impl View for MenuEntry {
    type V = MenuEntryV;

    open spec fn view(&self) -> MenuEntryV {
        match self {
            MenuEntry::Connecting => MenuEntryV::Connecting,
            MenuEntry::GatewayHeader { running, port } => MenuEntryV::GatewayHeader {
                running: *running,
                port: *port,
            },
            MenuEntry::Separator => MenuEntryV::Separator,
            MenuEntry::ActiveProfileHeader { id } => MenuEntryV::ActiveProfileHeader { id: id@ },
            MenuEntry::ProfileHeader { id, active } => MenuEntryV::ProfileHeader {
                id: id@,
                active: *active,
            },
            MenuEntry::ToolLine { name, class } => MenuEntryV::ToolLine {
                name: name@,
                class: *class,
            },
            MenuEntry::NoTools => MenuEntryV::NoTools,
            MenuEntry::RestartAction => MenuEntryV::RestartAction,
            MenuEntry::ShowAction => MenuEntryV::ShowAction,
            MenuEntry::QuitAction => MenuEntryV::QuitAction,
        }
    }
}

/// View of a whole rendered menu.
pub open spec fn entries_view(m: Seq<MenuEntry>) -> Seq<MenuEntryV> {
    m.map_values(|e: MenuEntry| e@)
}

/// The tool entries of a profile; an absent list counts as empty.
pub open spec fn tools_of(p: ProfileStatusV) -> Seq<ToolStatusV> {
    match p.tool_status {
        Some(ts) => ts,
        None => Seq::<ToolStatusV>::empty(),
    }
}

/// A profile contributes menu lines when it is running and has at least one
/// tool entry.
pub open spec fn profile_shows_tools(p: ProfileStatusV) -> bool {
    p.running && tools_of(p).len() > 0
}

/// Whether any profile contributes tool lines.
pub open spec fn any_profile_shows_tools(profiles: Seq<ProfileStatusV>) -> bool {
    exists|i: int| 0 <= i < profiles.len() && profile_shows_tools(#[trigger] profiles[i])
}

/// One selectable line per tool, in source order.
pub open spec fn tool_lines(ts: Seq<ToolStatusV>) -> Seq<MenuEntryV>
    decreases ts.len(),
{
    if ts.len() == 0 {
        Seq::<MenuEntryV>::empty()
    } else {
        tool_lines(ts.drop_last()).push(
            MenuEntryV::ToolLine {
                name: ts.last().name,
                class: classify_spec(ts.last().status),
            },
        )
    }
}

/// The lines one profile contributes: a header and its tool lines, or
/// nothing.
pub open spec fn profile_block(p: ProfileStatusV, active_id: Seq<char>) -> Seq<MenuEntryV> {
    if profile_shows_tools(p) {
        seq![MenuEntryV::ProfileHeader { id: p.id, active: p.id == active_id }] + tool_lines(
            tools_of(p),
        )
    } else {
        Seq::<MenuEntryV>::empty()
    }
}

/// The lines of all profiles, in snapshot order.
pub open spec fn profile_section(profiles: Seq<ProfileStatusV>, active_id: Seq<char>) -> Seq<
    MenuEntryV,
>
    decreases profiles.len(),
{
    if profiles.len() == 0 {
        Seq::<MenuEntryV>::empty()
    } else {
        profile_section(profiles.drop_last(), active_id) + profile_block(
            profiles.last(),
            active_id,
        )
    }
}

/// The menu body for a present snapshot.
pub open spec fn present_menu(s: AppStatusV) -> Seq<MenuEntryV> {
    seq![
        MenuEntryV::GatewayHeader { running: s.gateway_running, port: s.mcp_port },
        MenuEntryV::Separator,
    ] + (if s.active_profile_id.len() > 0 {
        seq![MenuEntryV::ActiveProfileHeader { id: s.active_profile_id }, MenuEntryV::Separator]
    } else {
        Seq::<MenuEntryV>::empty()
    }) + profile_section(s.profiles, s.active_profile_id) + (if any_profile_shows_tools(
        s.profiles,
    ) {
        Seq::<MenuEntryV>::empty()
    } else {
        seq![MenuEntryV::NoTools]
    }) + seq![MenuEntryV::Separator]
}

/// The full menu for an optional snapshot: body as above, always terminated
/// by the restart action entry, then the show-dashboard and quit entries —
/// the restart entry is offered whether or not a snapshot is present, since
/// an unreachable backend is exactly what a restart is for.
pub open spec fn menu_spec(status: Option<AppStatusV>) -> Seq<MenuEntryV> {
    (match status {
        Some(s) => present_menu(s),
        None => seq![MenuEntryV::Connecting, MenuEntryV::Separator],
    }) + seq![
        MenuEntryV::RestartAction,
        MenuEntryV::Separator,
        MenuEntryV::ShowAction,
        MenuEntryV::QuitAction,
    ]
}

/// Appends one entry, extending the rendered view by its view.
fn push_entry(m: &mut Vec<MenuEntry>, e: MenuEntry)
    ensures
        entries_view(final(m)@) == entries_view(old(m)@).push(e@),
{
    let ghost ev = e@;
    m.push(e);
    proof {
        assert(entries_view(m@) =~= entries_view(old(m)@).push(ev));
    }
}

/// Renders an optional snapshot into the menu description.
#[verifier::rlimit(100)]
pub fn build_menu(status: &Option<AppStatus>) -> (m: Vec<MenuEntry>)
    ensures
        entries_view(m@) == menu_spec(snapshot_view(*status)),
{
    let mut m: Vec<MenuEntry> = Vec::new();
    match status {
        None => {
            push_entry(&mut m, MenuEntry::Connecting);
            push_entry(&mut m, MenuEntry::Separator);
            proof {
                assert(entries_view(m@) =~= seq![MenuEntryV::Connecting, MenuEntryV::Separator]);
            }
        },
        Some(s) => {
            let ghost sv = s@;
            push_entry(
                &mut m,
                MenuEntry::GatewayHeader { running: s.gateway_running, port: s.mcp_port },
            );
            push_entry(&mut m, MenuEntry::Separator);
            if !s.active_profile_id.as_str().is_empty() {
                push_entry(
                    &mut m,
                    MenuEntry::ActiveProfileHeader { id: s.active_profile_id.clone() },
                );
                push_entry(&mut m, MenuEntry::Separator);
            }
            let ghost head = entries_view(m@);
            proof {
                assert(head =~= seq![
                    MenuEntryV::GatewayHeader { running: sv.gateway_running, port: sv.mcp_port },
                    MenuEntryV::Separator,
                ] + (if sv.active_profile_id.len() > 0 {
                    seq![
                        MenuEntryV::ActiveProfileHeader { id: sv.active_profile_id },
                        MenuEntryV::Separator,
                    ]
                } else {
                    Seq::<MenuEntryV>::empty()
                }));
                assert(sv.profiles.take(0) =~= Seq::<ProfileStatusV>::empty());
                assert(head + profile_section(sv.profiles.take(0), sv.active_profile_id) =~= head);
            }
            let mut has_tools = false;
            let mut i: usize = 0;
            while i < s.profiles.len()
                invariant
                    i <= s.profiles@.len(),
                    sv == s@,
                    entries_view(m@) == head + profile_section(
                        sv.profiles.take(i as int),
                        sv.active_profile_id,
                    ),
                    has_tools == any_profile_shows_tools(sv.profiles.take(i as int)),
                decreases s.profiles@.len() - i,
            {
                let ghost section_before = profile_section(
                    sv.profiles.take(i as int),
                    sv.active_profile_id,
                );
                let ghost pv = sv.profiles[i as int];
                let p = &s.profiles[i];
                proof {
                    assert(pv == p@);
                }
                let mut shown = false;
                if p.running {
                    match &p.tool_status {
                        Some(ts) => {
                            if ts.len() > 0 {
                                shown = true;
                                has_tools = true;
                                let ghost tsv = tools_of(pv);
                                proof {
                                    assert(tsv == ts@.map_values(|t: crate::status::ToolStatus| t@));
                                }
                                let active = p.id == s.active_profile_id;
                                push_entry(
                                    &mut m,
                                    MenuEntry::ProfileHeader { id: p.id.clone(), active },
                                );
                                let ghost with_header = head + section_before + seq![
                                    MenuEntryV::ProfileHeader {
                                        id: pv.id,
                                        active: pv.id == sv.active_profile_id,
                                    },
                                ];
                                proof {
                                    assert(entries_view(m@) =~= with_header);
                                    assert(tsv.take(0) =~= Seq::<ToolStatusV>::empty());
                                    assert(with_header + tool_lines(tsv.take(0)) =~= with_header);
                                }
                                let mut j: usize = 0;
                                while j < ts.len()
                                    invariant
                                        j <= ts@.len(),
                                        tsv == ts@.map_values(|t: crate::status::ToolStatus| t@),
                                        entries_view(m@) == with_header + tool_lines(
                                            tsv.take(j as int),
                                        ),
                                    decreases ts@.len() - j,
                                {
                                    let class = classify(&ts[j].status);
                                    push_entry(
                                        &mut m,
                                        MenuEntry::ToolLine { name: ts[j].name.clone(), class },
                                    );
                                    proof {
                                        assert(tsv.take(j + 1).drop_last() =~= tsv.take(j as int));
                                        assert(tsv.take(j + 1).last() == tsv[j as int]);
                                        assert(entries_view(m@) =~= with_header + tool_lines(
                                            tsv.take(j + 1),
                                        ));
                                    }
                                    j = j + 1;
                                }
                                proof {
                                    assert(tsv.take(ts@.len() as int) =~= tsv);
                                }
                            }
                        },
                        None => {},
                    }
                }
                proof {
                    assert(shown == profile_shows_tools(pv));
                    assert(sv.profiles.take(i + 1).drop_last() =~= sv.profiles.take(i as int));
                    assert(sv.profiles.take(i + 1).last() == pv);
                    assert(profile_section(sv.profiles.take(i + 1), sv.active_profile_id)
                        == section_before + profile_block(pv, sv.active_profile_id));
                    if shown {
                        assert(entries_view(m@) =~= head + profile_section(
                            sv.profiles.take(i + 1),
                            sv.active_profile_id,
                        ));
                    } else {
                        assert(entries_view(m@) =~= head + profile_section(
                            sv.profiles.take(i + 1),
                            sv.active_profile_id,
                        ));
                    }
                    // The has-tools flag tracks whether any prefix profile
                    // contributed lines.
                    if has_tools {
                        if shown {
                            assert(any_profile_shows_tools(sv.profiles.take(i + 1))) by {
                                assert(sv.profiles.take(i + 1)[i as int] == pv);
                            }
                        } else {
                            let k = choose|k: int|
                                0 <= k < sv.profiles.take(i as int).len()
                                    && profile_shows_tools(#[trigger] sv.profiles.take(i as int)[k]);
                            assert(sv.profiles.take(i + 1)[k] == sv.profiles.take(i as int)[k]);
                            assert(any_profile_shows_tools(sv.profiles.take(i + 1)));
                        }
                    } else {
                        assert forall|k: int|
                            0 <= k < sv.profiles.take(i + 1).len() implies !profile_shows_tools(
                            #[trigger] sv.profiles.take(i + 1)[k],
                        ) by {
                            if k < i {
                                assert(sv.profiles.take(i + 1)[k] == sv.profiles.take(i as int)[k]);
                                assert(!any_profile_shows_tools(sv.profiles.take(i as int)));
                            } else {
                                assert(sv.profiles.take(i + 1)[k] == pv);
                            }
                        }
                    }
                }
                i = i + 1;
            }
            proof {
                assert(sv.profiles.take(s.profiles@.len() as int) =~= sv.profiles);
            }
            if !has_tools {
                push_entry(&mut m, MenuEntry::NoTools);
            }
            push_entry(&mut m, MenuEntry::Separator);
            proof {
                assert(entries_view(m@) =~= present_menu(sv));
            }
        },
    }
    push_entry(&mut m, MenuEntry::RestartAction);
    push_entry(&mut m, MenuEntry::Separator);
    push_entry(&mut m, MenuEntry::ShowAction);
    push_entry(&mut m, MenuEntry::QuitAction);
    proof {
        assert(entries_view(m@) =~= menu_spec(snapshot_view(*status)));
    }
    m
}

/// Overall health class that selects the tray icon.
#[derive(Clone, Copy, Debug, PartialEq, Eq, Structural)]
pub enum IconClass {
    Good,
    Warning,
    Error,
}

/// Whether a profile reports any tool whose status is not `ok`.
pub open spec fn profile_has_non_ok_tool(p: ProfileStatusV) -> bool {
    exists|j: int| 0 <= j < tools_of(p).len() && (#[trigger] tools_of(p)[j]).status != "ok"@
}

/// Whether any tool across any profile reports a status other than `ok`.
pub open spec fn any_tool_not_ok(profiles: Seq<ProfileStatusV>) -> bool {
    exists|i: int| 0 <= i < profiles.len() && profile_has_non_ok_tool(#[trigger] profiles[i])
}

/// Icon-class selection, evaluated in order: absent or stopped is the error
/// class, any non-`ok` tool is the warning class, otherwise the good class.
/// A total function: exactly one class is always selected.
pub open spec fn icon_spec(status: Option<AppStatusV>) -> IconClass {
    match status {
        None => IconClass::Error,
        Some(s) => if !s.gateway_running {
            IconClass::Error
        } else if any_tool_not_ok(s.profiles) {
            IconClass::Warning
        } else {
            IconClass::Good
        },
    }
}

/// Whether one profile reports any tool whose status is not `ok`.
fn profile_has_non_ok_tool_exec(p: &crate::status::ProfileStatus) -> (r: bool)
    ensures
        r == profile_has_non_ok_tool(p@),
{
    let ok: String = "ok".to_owned();
    match &p.tool_status {
        None => {
            proof {
                assert(tools_of(p@).len() == 0);
            }
            false
        },
        Some(ts) => {
            let ghost tsv = tools_of(p@);
            proof {
                assert(tsv == ts@.map_values(|t: crate::status::ToolStatus| t@));
            }
            let mut j: usize = 0;
            while j < ts.len()
                invariant
                    j <= ts@.len(),
                    ok@ == "ok"@,
                    tsv == ts@.map_values(|t: crate::status::ToolStatus| t@),
                    tsv == tools_of(p@),
                    forall|k: int| 0 <= k < j ==> (#[trigger] tsv[k]).status == "ok"@,
                decreases ts@.len() - j,
            {
                let same = ts[j].status == ok;
                proof {
                    assert(tsv[j as int] == ts@[j as int]@);
                }
                if !same {
                    proof {
                        assert(tsv[j as int].status != "ok"@);
                        assert(tools_of(p@)[j as int].status != "ok"@);
                    }
                    return true;
                }
                j = j + 1;
            }
            false
        },
    }
}

/// Selects the icon class for an optional snapshot.
pub fn icon_class(status: &Option<AppStatus>) -> (c: IconClass)
    ensures
        c == icon_spec(snapshot_view(*status)),
{
    match status {
        None => IconClass::Error,
        Some(s) => {
            if !s.gateway_running {
                return IconClass::Error;
            }
            let ghost pv = s@.profiles;
            let mut i: usize = 0;
            while i < s.profiles.len()
                invariant
                    i <= s.profiles@.len(),
                    pv == s@.profiles,
                    s@.gateway_running,
                    snapshot_view(*status) == Some(s@),
                    forall|k: int| 0 <= k < i ==> !profile_has_non_ok_tool(#[trigger] pv[k]),
                decreases s.profiles@.len() - i,
            {
                if profile_has_non_ok_tool_exec(&s.profiles[i]) {
                    proof {
                        assert(pv[i as int] == s.profiles@[i as int]@);
                        assert(profile_has_non_ok_tool(s@.profiles[i as int]));
                        assert(any_tool_not_ok(s@.profiles));
                    }
                    return IconClass::Warning;
                }
                i = i + 1;
            }
            IconClass::Good
        },
    }
}

/// A stopped gateway always renders the error icon, whatever the tool
/// statuses say; so does an absent snapshot.
pub proof fn lemma_icon_error_when_stopped(s: AppStatusV)
    requires
        !s.gateway_running,
    ensures
        icon_spec(Some(s)) == IconClass::Error,
        icon_spec(None) == IconClass::Error,
{
}

/// The fixed icon asset name for each class.
pub open spec fn icon_file_spec(c: IconClass) -> Seq<char> {
    match c {
        IconClass::Good => "tray-ok.png"@,
        IconClass::Warning => "tray-warning.png"@,
        IconClass::Error => "tray-error.png"@,
    }
}

/// Names the icon asset for a class.
pub fn icon_file_name(c: IconClass) -> (r: &'static str)
    ensures
        r@ == icon_file_spec(c),
{
    match c {
        IconClass::Good => "tray-ok.png",
        IconClass::Warning => "tray-warning.png",
        IconClass::Error => "tray-error.png",
    }
}

/// Candidate locations for the icon asset, probed in order.
#[derive(Clone, Copy, Debug, PartialEq, Eq, Structural)]
pub enum IconSource {
    /// The installed asset directory.
    Installed,
    /// The development tree's asset directory.
    DevTree,
    /// The public logo, acceptable only for the good class.
    PublicLogo,
}

/// Picks the first existing candidate location, given which candidates exist;
/// the public logo is used only for the good class. `None` means the previous
/// icon stays in place.
pub fn choose_icon_source(
    installed_exists: bool,
    dev_exists: bool,
    public_exists: bool,
    c: IconClass,
) -> (r: Option<IconSource>)
    ensures
        r == (if installed_exists {
            Some(IconSource::Installed)
        } else if dev_exists {
            Some(IconSource::DevTree)
        } else if public_exists && c == IconClass::Good {
            Some(IconSource::PublicLogo)
        } else {
            None::<IconSource>
        }),
{
    if installed_exists {
        Some(IconSource::Installed)
    } else if dev_exists {
        Some(IconSource::DevTree)
    } else if public_exists && matches!(c, IconClass::Good) {
        Some(IconSource::PublicLogo)
    } else {
        None
    }
}

} // verus!
