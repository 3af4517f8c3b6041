//! What the application loop keeps between events (the configuration, the
//! modules of each bar section, the size each module measured on each
//! monitor, the focused monitor) and its decisions on commands, configuration
//! reloads and focus changes.
use vstd::prelude::*;
use crate::domain::{ModuleId, MonitorId};
use crate::domain::applets::AppletId;
use crate::domain::commands::AppCommand;
use crate::domain::config::Config;
use crate::domain::shared::geometry::{Position, Size};
use crate::domain::workspace::MonitorName;
use crate::services::registry::RegistryLoadError;

verus! {

/// Whether a burst of queued commands goes on after `processed` of them were
/// handled: it stops after the fifty-first, so that the other event sources
/// are looked at again.
pub fn batch_continues(processed: u32) -> (res: bool)
    ensures
        res == (processed <= 50),
{
    processed <= 50
}

/// The modules of the three sections of a bar, in drawing order.
pub struct ModuleLists {
    pub left: Vec<ModuleId>,
    pub center: Vec<ModuleId>,
    pub right: Vec<ModuleId>,
}

/// Abstract value of [`ModuleLists`]: the identifiers of each section.
pub struct ModuleListsView {
    pub left: Seq<u32>,
    pub center: Seq<u32>,
    pub right: Seq<u32>,
}

pub open spec fn ids_view(ids: Seq<ModuleId>) -> Seq<u32> {
    ids.map_values(|m: ModuleId| m.value())
}

impl View for ModuleLists {
    type V = ModuleListsView;

    open spec fn view(&self) -> ModuleListsView {
        ModuleListsView {
            left: ids_view(self.left@),
            center: ids_view(self.center@),
            right: ids_view(self.right@),
        }
    }
}

/// What the loop does next, besides drawing.
#[derive(Debug, PartialEq)]
pub enum AppAction {
    Nothing,
    /// Run a shell command line.
    RunCommand(String),
    /// Forward an action to a tray applet.
    TriggerApplet { id: AppletId, action: String, pos: Option<Position> },
    ShowTooltip { text: String },
    HideTooltip,
    /// Load the modules of the new configuration.
    ReloadRegistry,
}

/// The outcome of one command: whether the bars are drawn again once the
/// burst is over, and what else is done.
#[derive(Debug, PartialEq)]
pub struct CommandStep {
    pub render: bool,
    pub action: AppAction,
}

/// The step a command calls for.
pub open spec fn command_step(cmd: AppCommand) -> CommandStep {
    match cmd {
        AppCommand::RequestRender => CommandStep { render: false, action: AppAction::Nothing },
        AppCommand::Exec(line) => CommandStep { render: false, action: AppAction::RunCommand(line) },
        AppCommand::AppletAction { id, action, pos } => CommandStep {
            render: false,
            action: AppAction::TriggerApplet { id, action, pos },
        },
        AppCommand::ModuleSizeChanged(_, _, _) => CommandStep {
            render: true,
            action: AppAction::Nothing,
        },
        AppCommand::ShowTooltip { text } => CommandStep {
            render: false,
            action: AppAction::ShowTooltip { text },
        },
        AppCommand::HideTooltip => CommandStep { render: false, action: AppAction::HideTooltip },
    }
}

/// The size a module measured on a monitor.
struct SizeEntry {
    monitor: MonitorId,
    module: ModuleId,
    size: Size,
}

spec fn entry_key(e: SizeEntry) -> (Seq<char>, u32) {
    (e.monitor@, e.module.value())
}

spec fn keys_distinct(s: Seq<SizeEntry>) -> bool {
    forall|i: int, j: int|
        0 <= i < s.len() && 0 <= j < s.len() && i != j ==> entry_key(#[trigger] s[i])
            != entry_key(#[trigger] s[j])
}

spec fn sizes_map(s: Seq<SizeEntry>) -> Map<(Seq<char>, u32), (u32, u32)>
    decreases s.len(),
{
    if s.len() == 0 {
        Map::empty()
    } else {
        sizes_map(s.drop_last()).insert(entry_key(s.last()), s.last().size@)
    }
}

proof fn lemma_sizes_map_update(s: Seq<SizeEntry>, i: int, e: SizeEntry)
    requires
        keys_distinct(s),
        0 <= i < s.len(),
        entry_key(s[i]) == entry_key(e),
    ensures
        sizes_map(s.update(i, e)) == sizes_map(s).insert(entry_key(e), e.size@),
    decreases s.len(),
{
    let u = s.update(i, e);
    if i == s.len() - 1 {
        assert(u.drop_last() =~= s.drop_last());
        assert(sizes_map(u) =~= sizes_map(s).insert(entry_key(e), e.size@));
    } else {
        assert(u.drop_last() =~= s.drop_last().update(i, e));
        assert(keys_distinct(s.drop_last()));
        lemma_sizes_map_update(s.drop_last(), i, e);
        assert(entry_key(s.last()) != entry_key(s[i]));
        assert(sizes_map(u) =~= sizes_map(s).insert(entry_key(e), e.size@));
    }
}

proof fn lemma_sizes_map_lookup(s: Seq<SizeEntry>, k: (Seq<char>, u32))
    requires
        keys_distinct(s),
    ensures
        forall|i: int|
            0 <= i < s.len() && entry_key(#[trigger] s[i]) == k ==> sizes_map(s).contains_key(k)
                && sizes_map(s)[k] == s[i].size@,
        (forall|i: int| 0 <= i < s.len() ==> entry_key(#[trigger] s[i]) != k) ==> !sizes_map(
            s,
        ).contains_key(k),
    decreases s.len(),
{
    if s.len() > 0 {
        assert(keys_distinct(s.drop_last()));
        lemma_sizes_map_lookup(s.drop_last(), k);
        assert forall|i: int|
            0 <= i < s.len() && entry_key(#[trigger] s[i]) == k implies sizes_map(s).contains_key(
            k,
        ) && sizes_map(s)[k] == s[i].size@ by {
            if i < s.len() - 1 {
                assert(s.drop_last()[i] == s[i]);
                assert(entry_key(s.last()) != entry_key(s[i]));
            }
        }
        if forall|i: int| 0 <= i < s.len() ==> entry_key(#[trigger] s[i]) != k {
            assert forall|i: int| 0 <= i < s.drop_last().len() implies entry_key(
                #[trigger] s.drop_last()[i],
            ) != k by {
                assert(s.drop_last()[i] == s[i]);
            }
            assert(entry_key(s[s.len() - 1]) != k);
        }
    }
}

/// The size keys that belong to a monitor named in `names`.
pub open spec fn live_keys(names: Seq<Seq<char>>) -> Set<(Seq<char>, u32)> {
    Set::new(|k: (Seq<char>, u32)| names.contains(k.0))
}

/// The name of the focused monitor, empty when no monitor has the focus.
pub open spec fn focused_name(m: Option<MonitorName>) -> Seq<char> {
    match m {
        Some(n) => n@,
        None => Seq::empty(),
    }
}

/// The application's model: configuration, module sections, measured module
/// sizes and the focused monitor.
pub struct AppReadModel {
    config: Config,
    left_modules: Vec<ModuleId>,
    center_modules: Vec<ModuleId>,
    right_modules: Vec<ModuleId>,
    module_sizes: Vec<SizeEntry>,
    focused_monitor: String,
}

/// Abstract value of an [`AppReadModel`]; sizes are keyed by monitor name and
/// module identifier.
pub struct AppModelView {
    pub config: Config,
    pub lists: ModuleListsView,
    pub sizes: Map<(Seq<char>, u32), (u32, u32)>,
    pub focused: Seq<char>,
}

impl View for AppReadModel {
    type V = AppModelView;

    closed spec fn view(&self) -> AppModelView {
        AppModelView {
            config: self.config,
            lists: ModuleListsView {
                left: ids_view(self.left_modules@),
                center: ids_view(self.center_modules@),
                right: ids_view(self.right_modules@),
            },
            sizes: sizes_map(self.module_sizes@),
            focused: self.focused_monitor@,
        }
    }
}

impl AppReadModel {
    /// At most one size is kept per monitor and module.
    pub closed spec fn wf(&self) -> bool {
        keys_distinct(self.module_sizes@)
    }

    /// A model for a configuration whose modules were loaded: no size is
    /// known yet and no monitor is focused (the focused name is empty).
    pub fn new(config: Config, lists: ModuleLists) -> (res: Self)
        ensures
            res.wf(),
            res@.config == config,
            res@.lists == lists@,
            res@.sizes == Map::<(Seq<char>, u32), (u32, u32)>::empty(),
            res@.focused == Seq::<char>::empty(),
    {
        let res = AppReadModel {
            config,
            left_modules: lists.left,
            center_modules: lists.center,
            right_modules: lists.right,
            module_sizes: Vec::new(),
            focused_monitor: String::new(),
        };
        assert(sizes_map(res.module_sizes@) =~= Map::empty());
        res
    }

    pub fn config(&self) -> (res: &Config)
        ensures
            *res == self@.config,
    {
        &self.config
    }

    pub fn left_modules(&self) -> (res: &Vec<ModuleId>)
        ensures
            ids_view(res@) == self@.lists.left,
    {
        &self.left_modules
    }

    pub fn center_modules(&self) -> (res: &Vec<ModuleId>)
        ensures
            ids_view(res@) == self@.lists.center,
    {
        &self.center_modules
    }

    pub fn right_modules(&self) -> (res: &Vec<ModuleId>)
        ensures
            ids_view(res@) == self@.lists.right,
    {
        &self.right_modules
    }

    /// The last size a module reported on a monitor.
    pub fn module_size(&self, monitor: &MonitorId, module: ModuleId) -> (res: Option<Size>)
        requires
            self.wf(),
        ensures
            match res {
                Some(s) => self@.sizes.contains_key((monitor@, module.value()))
                    && self@.sizes[(monitor@, module.value())] == s@,
                None => !self@.sizes.contains_key((monitor@, module.value())),
            },
    {
        let mut i: usize = 0;
        while i < self.module_sizes.len()
            invariant
                i <= self.module_sizes@.len(),
                self.wf(),
                forall|j: int|
                    0 <= j < i ==> entry_key(#[trigger] self.module_sizes@[j]) != (
                        monitor@,
                        module.value(),
                    ),
            decreases self.module_sizes@.len() - i,
        {
            let e = &self.module_sizes[i];
            if e.monitor.same_as(monitor) && e.module.get() == module.get() {
                assert(entry_key(self.module_sizes@[i as int]) == (monitor@, module.value()));
                proof {
                    lemma_sizes_map_lookup(self.module_sizes@, (monitor@, module.value()));
                }
                return Some(e.size);
            }
            i = i + 1;
        }
        proof {
            lemma_sizes_map_lookup(self.module_sizes@, (monitor@, module.value()));
        }
        None
    }

    /// The monitor that has the focus, as last reported.
    pub fn focused_monitor(&self) -> (res: &str)
        ensures
            res@ == self@.focused,
    {
        self.focused_monitor.as_str()
    }

    /// Records the size a module measured on a monitor, replacing the one
    /// it had there.
    pub fn handle_size_changed(&mut self, monitor_id: MonitorId, module_id: ModuleId, size: Size)
        requires
            old(self).wf(),
        ensures
            final(self).wf(),
            final(self)@.sizes == old(self)@.sizes.insert((monitor_id@, module_id.value()), size@),
            final(self)@.config == old(self)@.config,
            final(self)@.lists == old(self)@.lists,
            final(self)@.focused == old(self)@.focused,
    {
        let ghost key = (monitor_id@, module_id.value());
        let mut i: usize = 0;
        while i < self.module_sizes.len()
            invariant
                i <= self.module_sizes@.len(),
                key == (monitor_id@, module_id.value()),
                forall|j: int| 0 <= j < i ==> entry_key(#[trigger] self.module_sizes@[j]) != key,
            ensures
                i <= self.module_sizes@.len(),
                forall|j: int| 0 <= j < i ==> entry_key(#[trigger] self.module_sizes@[j]) != key,
                i < self.module_sizes@.len() ==> entry_key(self.module_sizes@[i as int]) == key,
            decreases self.module_sizes@.len() - i,
        {
            if self.module_sizes[i].monitor.same_as(&monitor_id)
                && self.module_sizes[i].module.get() == module_id.get() {
                assert(entry_key(self.module_sizes@[i as int]) == key);
                break;
            }
            i = i + 1;
        }
        let entry = SizeEntry { monitor: monitor_id, module: module_id, size };
        let ghost old_sizes = self.module_sizes@;
        if i < self.module_sizes.len() {
            proof {
                lemma_sizes_map_update(old_sizes, i as int, entry);
            }
            self.module_sizes.set(i, entry);
            assert(self.module_sizes@ == old_sizes.update(i as int, entry));
            assert(entry_key(old_sizes[i as int]) == key);
            assert(keys_distinct(self.module_sizes@)) by {
                assert forall|a: int, b: int|
                    0 <= a < self.module_sizes@.len() && 0 <= b < self.module_sizes@.len() && a
                        != b implies entry_key(#[trigger] self.module_sizes@[a]) != entry_key(
                    #[trigger] self.module_sizes@[b],
                ) by {
                    assert(old_sizes[a] == self.module_sizes@[a] || a == i);
                    assert(old_sizes[b] == self.module_sizes@[b] || b == i);
                }
            }
        } else {
            self.module_sizes.push(entry);
            assert(self.module_sizes@.drop_last() =~= old_sizes);
            assert(keys_distinct(self.module_sizes@)) by {
                assert forall|a: int, b: int|
                    0 <= a < self.module_sizes@.len() && 0 <= b < self.module_sizes@.len() && a
                        != b implies entry_key(#[trigger] self.module_sizes@[a]) != entry_key(
                    #[trigger] self.module_sizes@[b],
                ) by {
                    if a < old_sizes.len() {
                        assert(self.module_sizes@[a] == old_sizes[a]);
                    }
                    if b < old_sizes.len() {
                        assert(self.module_sizes@[b] == old_sizes[b]);
                    }
                }
            }
        }
    }

    /// Forgets the sizes measured on monitors that are gone: only those on a
    /// monitor named in `live` stay.
    pub fn prune_removed_monitors(&mut self, live: &Vec<MonitorId>)
        requires
            old(self).wf(),
        ensures
            final(self).wf(),
            final(self)@.sizes == old(self)@.sizes.restrict(
                live_keys(live@.map_values(|m: MonitorId| m@)),
            ),
            final(self)@.config == old(self)@.config,
            final(self)@.lists == old(self)@.lists,
            final(self)@.focused == old(self)@.focused,
    {
        let ghost names = live@.map_values(|m: MonitorId| m@);
        let ghost keep = live_keys(names);
        let ghost orig = self.module_sizes@;
        let mut rest: Vec<SizeEntry> = Vec::new();
        std::mem::swap(&mut rest, &mut self.module_sizes);
        let n = rest.len();
        let mut kept: Vec<SizeEntry> = Vec::new();
        let mut j: usize = 0;
        assert(orig.subrange(0, 0) =~= Seq::<SizeEntry>::empty());
        assert(sizes_map(kept@) =~= sizes_map(orig.subrange(0, 0)).restrict(keep));
        assert(rest@ =~= orig.subrange(0, n as int));
        while rest.len() > 0
            invariant
                keys_distinct(orig),
                n == orig.len(),
                j + rest@.len() == n,
                rest@ == orig.subrange(j as int, n as int),
                names == live@.map_values(|m: MonitorId| m@),
                keep == live_keys(names),
                keys_distinct(kept@),
                forall|i: int|
                    0 <= i < kept@.len() ==> exists|l: int|
                        0 <= l < j && entry_key(#[trigger] kept@[i]) == entry_key(orig[l]),
                sizes_map(kept@) == sizes_map(orig.subrange(0, j as int)).restrict(keep),
            decreases rest@.len(),
        {
            let e = rest.remove(0);
            assert(e == orig[j as int]);
            assert(orig.subrange(0, j + 1).drop_last() =~= orig.subrange(0, j as int));
            let mut live_here = false;
            let mut k: usize = 0;
            while k < live.len()
                invariant
                    k <= live@.len(),
                    names == live@.map_values(|m: MonitorId| m@),
                    live_here == exists|q: int| 0 <= q < k && names[q] == e.monitor@,
                decreases live@.len() - k,
            {
                assert(names[k as int] == live@[k as int]@);
                if live[k].same_as(&e.monitor) {
                    live_here = true;
                }
                k = k + 1;
            }
            assert(live_here == names.contains(e.monitor@));
            let ghost before = kept@;
            let ghost m0 = sizes_map(orig.subrange(0, j as int));
            if live_here {
                proof {
                    assert forall|i: int| 0 <= i < before.len() implies entry_key(#[trigger] before[i])
                        != entry_key(e) by {
                        let l = choose|l: int| 0 <= l < j && entry_key(before[i]) == entry_key(orig[l]);
                        assert(orig[l] == orig[l]);
                    }
                }
                kept.push(e);
                assert(kept@.drop_last() =~= before);
                assert(keys_distinct(kept@)) by {
                    assert forall|a: int, b: int|
                        0 <= a < kept@.len() && 0 <= b < kept@.len() && a != b implies entry_key(
                        #[trigger] kept@[a],
                    ) != entry_key(#[trigger] kept@[b]) by {
                        if a < before.len() {
                            assert(kept@[a] == before[a]);
                        }
                        if b < before.len() {
                            assert(kept@[b] == before[b]);
                        }
                    }
                }
                assert forall|i: int| 0 <= i < kept@.len() implies exists|l: int|
                    0 <= l < j + 1 && entry_key(#[trigger] kept@[i]) == entry_key(orig[l]) by {
                    if i < before.len() {
                        assert(kept@[i] == before[i]);
                        let l = choose|l: int| 0 <= l < j && entry_key(before[i]) == entry_key(orig[l]);
                        assert(0 <= l < j + 1 && entry_key(kept@[i]) == entry_key(orig[l]));
                    } else {
                        assert(entry_key(kept@[i]) == entry_key(orig[j as int]));
                    }
                }
                assert(keep.contains(entry_key(e)));
                assert(sizes_map(kept@) =~= m0.insert(entry_key(e), e.size@).restrict(keep));
            } else {
                assert(!keep.contains(entry_key(e)));
                assert(sizes_map(kept@) =~= m0.insert(entry_key(e), e.size@).restrict(keep));
                assert forall|i: int| 0 <= i < kept@.len() implies exists|l: int|
                    0 <= l < j + 1 && entry_key(#[trigger] kept@[i]) == entry_key(orig[l]) by {
                    let l = choose|l: int| 0 <= l < j && entry_key(kept@[i]) == entry_key(orig[l]);
                    assert(0 <= l < j + 1 && entry_key(kept@[i]) == entry_key(orig[l]));
                }
            }
            j = j + 1;
            assert(rest@ =~= orig.subrange(j as int, n as int));
        }
        assert(orig.subrange(0, n as int) =~= orig);
        self.module_sizes = kept;
    }

    /// Handles one command of a burst. A module that measured a new size has
    /// it recorded, and the bars are drawn again once the burst is over; any
    /// other command leaves the model as it is and names what the loop does.
    pub fn on_command(&mut self, cmd: AppCommand) -> (res: CommandStep)
        requires
            old(self).wf(),
        ensures
            final(self).wf(),
            res == command_step(cmd),
            match cmd {
                AppCommand::ModuleSizeChanged(m, id, s) => {
                    &&& final(self)@.sizes == old(self)@.sizes.insert((m@, id.value()), s@)
                    &&& final(self)@.config == old(self)@.config
                    &&& final(self)@.lists == old(self)@.lists
                    &&& final(self)@.focused == old(self)@.focused
                },
                _ => final(self)@ == old(self)@,
            },
    {
        match cmd {
            AppCommand::RequestRender => CommandStep { render: false, action: AppAction::Nothing },
            AppCommand::Exec(line) => CommandStep {
                render: false,
                action: AppAction::RunCommand(line),
            },
            AppCommand::AppletAction { id, action, pos } => CommandStep {
                render: false,
                action: AppAction::TriggerApplet { id, action, pos },
            },
            AppCommand::ModuleSizeChanged(m, id, s) => {
                self.handle_size_changed(m, id, s);
                CommandStep { render: true, action: AppAction::Nothing }
            },
            AppCommand::ShowTooltip { text } => CommandStep {
                render: false,
                action: AppAction::ShowTooltip { text },
            },
            AppCommand::HideTooltip => CommandStep { render: false, action: AppAction::HideTooltip },
        }
    }

    /// A new configuration replaces the current one; every measured size is
    /// forgotten and the modules are loaded again (the sections stay until
    /// that load succeeds).
    pub fn on_config_changed(&mut self, config: Config) -> (res: AppAction)
        requires
            old(self).wf(),
        ensures
            final(self).wf(),
            final(self)@.config == config,
            final(self)@.sizes == Map::<(Seq<char>, u32), (u32, u32)>::empty(),
            final(self)@.lists == old(self)@.lists,
            final(self)@.focused == old(self)@.focused,
            res == AppAction::ReloadRegistry,
    {
        self.config = config;
        self.module_sizes = Vec::new();
        assert(sizes_map(self.module_sizes@) =~= Map::empty());
        AppAction::ReloadRegistry
    }

    /// The outcome of loading the modules: on success the sections become
    /// the loaded ones and the modules are started (`true`); on failure
    /// nothing changes (`false`).
    pub fn on_registry_loaded(&mut self, outcome: Result<ModuleLists, RegistryLoadError>) -> (res:
        bool)
        requires
            old(self).wf(),
        ensures
            final(self).wf(),
            res == outcome is Ok,
            match outcome {
                Ok(l) => {
                    &&& final(self)@.lists == l@
                    &&& final(self)@.config == old(self)@.config
                    &&& final(self)@.sizes == old(self)@.sizes
                    &&& final(self)@.focused == old(self)@.focused
                },
                Err(_) => final(self)@ == old(self)@,
            },
    {
        match outcome {
            Ok(l) => {
                self.left_modules = l.left;
                self.center_modules = l.center;
                self.right_modules = l.right;
                true
            },
            Err(_) => false,
        }
    }

    /// The window manager reported its state: the bars are drawn again only
    /// when the name of the focused monitor changed, no focused monitor
    /// counting as the empty name.
    pub fn on_focus_changed(&mut self, focused: Option<MonitorName>) -> (render: bool)
        requires
            old(self).wf(),
        ensures
            final(self).wf(),
            render == (focused_name(focused) != old(self)@.focused),
            final(self)@.focused == focused_name(focused),
            final(self)@.config == old(self)@.config,
            final(self)@.lists == old(self)@.lists,
            final(self)@.sizes == old(self)@.sizes,
    {
        let name = match &focused {
            Some(m) => m.as_str().to_owned(),
            None => String::new(),
        };
        let changed = !(name == self.focused_monitor);
        if changed {
            self.focused_monitor = name;
        }
        changed
    }
}

} // verus!
