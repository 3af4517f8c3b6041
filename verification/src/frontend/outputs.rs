//! The outputs the compositor announced, and which of them get a bar.
use vstd::prelude::*;
use crate::application::hyprland::{first_from, lemma_first_from_found};
use crate::frontend::hyprland::Monitor;

verus! {

/// An output: the compositor's handle for it, its global id, its name
/// (empty until announced) and its scale.
pub struct OutputInfo<T> {
    output: T,
    id: u32,
    name: String,
    scale: i32,
}

/// What the bar knows of an output.
pub struct OutputView {
    pub id: u32,
    pub name: Seq<char>,
    pub scale: i32,
}

impl<T> OutputInfo<T> {
    pub closed spec fn spec_view(&self) -> OutputView {
        OutputView { id: self.id, name: self.name@, scale: self.scale }
    }

    pub closed spec fn spec_output(&self) -> T {
        self.output
    }

    /// The compositor's handle of the output.
    pub fn output(&self) -> (res: &T)
        ensures
            *res == self.spec_output(),
    {
        &self.output
    }

    pub fn id(&self) -> (res: u32)
        ensures
            res == self.spec_view().id,
    {
        self.id
    }

    pub fn name(&self) -> (res: &str)
        ensures
            res@ == self.spec_view().name,
    {
        self.name.as_str()
    }

    pub fn scale(&self) -> (res: i32)
        ensures
            res == self.spec_view().scale,
    {
        self.scale
    }
}

pub open spec fn outputs_view<T>(s: Seq<OutputInfo<T>>) -> Seq<OutputView> {
    s.map_values(|o: OutputInfo<T>| o.spec_view())
}

pub open spec fn with_id(id: u32) -> spec_fn(OutputView) -> bool {
    |o: OutputView| o.id == id
}

/// The outputs in the order the compositor announced them.
pub struct Outputs<T> {
    entries: Vec<OutputInfo<T>>,
}

impl<T> Outputs<T> {
    pub closed spec fn spec_entries(&self) -> Seq<OutputView> {
        outputs_view(self.entries@)
    }

    /// The compositor's handles, in the same order as the entries.
    pub closed spec fn spec_outputs(&self) -> Seq<T> {
        self.entries@.map_values(|o: OutputInfo<T>| o.spec_output())
    }

    pub fn new() -> (res: Self)
        ensures
            res.spec_entries() == Seq::<OutputView>::empty(),
            res.spec_outputs() == Seq::<T>::empty(),
    {
        let res = Outputs { entries: Vec::new() };
        assert(res.spec_entries() =~= Seq::<OutputView>::empty());
        assert(res.spec_outputs() =~= Seq::<T>::empty());
        res
    }

    pub fn entries(&self) -> (res: &[OutputInfo<T>])
        ensures
            outputs_view(res@) == self.spec_entries(),
    {
        self.entries.as_slice()
    }

    /// A newly announced output: no name yet, scale 1.
    pub fn add_output(&mut self, id: u32, output: T)
        ensures
            final(self).spec_entries() == old(self).spec_entries().push(
                OutputView { id, name: Seq::empty(), scale: 1 },
            ),
            final(self).spec_outputs() == old(self).spec_outputs().push(output),
    {
        let ghost before = self.entries@;
        let ghost handles = old(self).spec_outputs();
        self.entries.push(OutputInfo { output, id, name: String::new(), scale: 1 });
        assert(self.spec_outputs() =~= handles.push(output));
        assert(outputs_view(self.entries@) =~= outputs_view(before).push(
            OutputView { id, name: Seq::empty(), scale: 1 },
        ));
    }

    fn index_of(&self, id: u32) -> (res: Option<usize>)
        ensures
            crate::application::hyprland::opt_index(res) == first_from(
                self.spec_entries(),
                with_id(id),
                0,
            ),
    {
        let ghost v = self.spec_entries();
        let mut i: usize = 0;
        while i < self.entries.len()
            invariant
                v == outputs_view(self.entries@),
                i <= self.entries@.len(),
                first_from(v, with_id(id), 0) == first_from(v, with_id(id), i as int),
            decreases self.entries@.len() - i,
        {
            if self.entries[i].id == id {
                return Some(i);
            }
            i = i + 1;
        }
        None
    }

    /// Forgets the first output with `id`; gives back its name, whose bars
    /// go with it.
    pub fn remove_output(&mut self, id: u32) -> (res: Option<String>)
        ensures
            match first_from(old(self).spec_entries(), with_id(id), 0) {
                Some(k) => res matches Some(n) && n@ == old(self).spec_entries()[k].name
                    && final(self).spec_entries() == old(self).spec_entries().remove(k)
                    && final(self).spec_outputs() == old(self).spec_outputs().remove(k),
                None => res is None && final(self).spec_entries() == old(self).spec_entries()
                    && final(self).spec_outputs() == old(self).spec_outputs(),
            },
    {
        proof {
            lemma_first_from_found(self.spec_entries(), with_id(id), 0);
        }
        match self.index_of(id) {
            None => None,
            Some(k) => {
                let ghost before = self.entries@;
                let info = self.entries.remove(k);
                assert(outputs_view(self.entries@) =~= outputs_view(before).remove(k as int));
                assert(self.spec_outputs() =~= before.map_values(|o: OutputInfo<T>| o.spec_output()).remove(k as int));
                Some(info.name)
            },
        }
    }

    /// Records the name the compositor gave the output with `id`.
    pub fn set_name(&mut self, id: u32, name: String)
        ensures
            match first_from(old(self).spec_entries(), with_id(id), 0) {
                Some(k) => final(self).spec_entries() == old(self).spec_entries().update(
                    k,
                    OutputView { name: name@, ..old(self).spec_entries()[k] },
                ),
                None => final(self).spec_entries() == old(self).spec_entries(),
            },
            final(self).spec_outputs() == old(self).spec_outputs(),
    {
        proof {
            lemma_first_from_found(self.spec_entries(), with_id(id), 0);
        }
        if let Some(k) = self.index_of(id) {
            let ghost before = self.entries@;
            let ghost nv = name@;
            self.entries[k].name = name;
            assert(outputs_view(self.entries@) =~= outputs_view(before).update(
                k as int,
                OutputView { name: nv, ..outputs_view(before)[k as int] },
            ));
            assert(self.spec_outputs() =~= before.map_values(|o: OutputInfo<T>| o.spec_output()));
        }
    }

    /// Records the scale of the output with `id`.
    pub fn set_scale(&mut self, id: u32, scale: i32)
        ensures
            match first_from(old(self).spec_entries(), with_id(id), 0) {
                Some(k) => final(self).spec_entries() == old(self).spec_entries().update(
                    k,
                    OutputView { scale, ..old(self).spec_entries()[k] },
                ),
                None => final(self).spec_entries() == old(self).spec_entries(),
            },
            final(self).spec_outputs() == old(self).spec_outputs(),
    {
        proof {
            lemma_first_from_found(self.spec_entries(), with_id(id), 0);
        }
        if let Some(k) = self.index_of(id) {
            let ghost before = self.entries@;
            self.entries[k].scale = scale;
            assert(outputs_view(self.entries@) =~= outputs_view(before).update(
                k as int,
                OutputView { scale, ..outputs_view(before)[k as int] },
            ));
            assert(self.spec_outputs() =~= before.map_values(|o: OutputInfo<T>| o.spec_output()));
        }
    }
}

/// Whether an output of this name gets a new bar: it has a name, and no bar
/// is on an output of that name yet.
pub open spec fn needs_bar(name: Seq<char>, bars: Seq<Seq<char>>) -> bool {
    name.len() > 0 && !bars.contains(name)
}

pub fn should_create_bar(name: &str, bar_monitors: &Vec<String>) -> (res: bool)
    ensures
        res == needs_bar(name@, bar_monitors@.map_values(|s: String| s@)),
{
    if name.unicode_len() == 0 {
        return false;
    }
    let ghost names = bar_monitors@.map_values(|s: String| s@);
    let mut i: usize = 0;
    while i < bar_monitors.len()
        invariant
            names == bar_monitors@.map_values(|s: String| s@),
            i <= bar_monitors@.len(),
            forall|j: int| 0 <= j < i ==> names[j] != name@,
        decreases bar_monitors@.len() - i,
    {
        let owned = name.to_owned();
        if bar_monitors[i] == owned {
            assert(names[i as int] == name@);
            return false;
        }
        i = i + 1;
    }
    proof {
        if names.contains(name@) {
            let j = choose|j: int| 0 <= j < names.len() && names[j] == name@;
            assert(names[j] != name@);
        }
    }
    true
}

pub open spec fn focused_index(ms: Seq<Monitor>) -> Option<int> {
    first_from(ms, |m: Monitor| m.spec_focused(), 0)
}

/// The name of the first monitor that has focus.
pub fn focused_monitor_of(monitors: &Vec<Monitor>) -> (res: Option<String>)
    ensures
        match focused_index(monitors@) {
            Some(k) => res matches Some(n) && n@ == monitors@[k].spec_name(),
            None => res is None,
        },
{
    let mut i: usize = 0;
    while i < monitors.len()
        invariant
            i <= monitors@.len(),
            focused_index(monitors@) == first_from(monitors@, |m: Monitor| m.spec_focused(), i as int),
        decreases monitors@.len() - i,
    {
        if monitors[i].focused() {
            return Some(monitors[i].name().to_owned());
        }
        i = i + 1;
    }
    None
}

/// A bar is drawn with the full settings on the focused output, and with
/// the `unfocused` overrides elsewhere.
pub fn draws_focused(bar_monitor: &str, focused: &Option<String>) -> (res: bool)
    ensures
        res == match focused {
            Some(f) => f@ == bar_monitor@,
            None => false,
        },
{
    match focused {
        Some(f) => {
            let owned = bar_monitor.to_owned();
            *f == owned
        },
        None => false,
    }
}

/// The focused monitor after a poll, and whether the bars must be redrawn
/// because focus moved.
pub fn focus_after_poll(current: &Option<String>, monitors: &Vec<Monitor>) -> (res: (Option<String>, bool))
    ensures
        match focused_index(monitors@) {
            Some(k) => res.0 matches Some(n) && n@ == monitors@[k].spec_name(),
            None => res.0 is None,
        },
        res.1 == (crate::adapters::sni::opt_str(res.0) != crate::adapters::sni::opt_str(*current)),
{
    let next = focused_monitor_of(monitors);
    let changed = match (&next, current) {
        (Some(a), Some(b)) => !(*a == *b),
        (None, None) => false,
        _ => true,
    };
    (next, changed)
}

} // verus!
