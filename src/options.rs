//! The option set of the server, and the overlay of the client's
//! initialization options onto it.
use vstd::prelude::*;
use crate::text::str_eq;

verus! {

/// The options a client may override, each named by its JSON pointer.
#[derive(Clone, Copy, Debug, PartialEq, Eq, Structural)]
pub enum OptionKey {
    WithSysroot,
    ProcMacroEnable,
    CargoAllFeatures,
    CargoNoDefaultFeatures,
    CargoLoadOutDirsFromCheck,
    CargoTarget,
    CargoFeatures,
    LruCapacity,
    LinkedProjects,
}

/// One value of the initialization options payload, as far as the option set reads it.
pub enum OptionValue {
    Bool(bool),
    Number(u64),
    Text(String),
    List(Vec<String>),
    Other,
}

/// One key of the payload, written as a JSON pointer (`/cargo/allFeatures`), with its value.
pub struct OptionEntry {
    pub key: String,
    pub value: OptionValue,
}

/// The option set.
pub struct Options {
    pub with_sysroot: bool,
    pub proc_macro_enable: bool,
    pub cargo_all_features: bool,
    pub cargo_no_default_features: bool,
    pub cargo_load_out_dirs_from_check: bool,
    pub cargo_target: Option<String>,
    pub cargo_features: Vec<String>,
    pub lru_capacity: Option<u64>,
    pub linked_projects: Vec<String>,
}

/// The option set with its strings seen as character sequences.
pub struct OptionsView {
    pub with_sysroot: bool,
    pub proc_macro_enable: bool,
    pub cargo_all_features: bool,
    pub cargo_no_default_features: bool,
    pub cargo_load_out_dirs_from_check: bool,
    pub cargo_target: Option<Seq<char>>,
    pub cargo_features: Seq<Seq<char>>,
    pub lru_capacity: Option<u64>,
    pub linked_projects: Seq<Seq<char>>,
}

pub open spec fn texts(v: Seq<String>) -> Seq<Seq<char>> {
    v.map_values(|s: String| s@)
}

impl View for Options {
    type V = OptionsView;

    open spec fn view(&self) -> OptionsView {
        OptionsView {
            with_sysroot: self.with_sysroot,
            proc_macro_enable: self.proc_macro_enable,
            cargo_all_features: self.cargo_all_features,
            cargo_no_default_features: self.cargo_no_default_features,
            cargo_load_out_dirs_from_check: self.cargo_load_out_dirs_from_check,
            cargo_target: match self.cargo_target {
                Some(t) => Some(t@),
                None => None,
            },
            cargo_features: texts(self.cargo_features@),
            lru_capacity: self.lru_capacity,
            linked_projects: texts(self.linked_projects@),
        }
    }
}

/// The default option set.
pub open spec fn default_options() -> OptionsView {
    OptionsView {
        with_sysroot: true,
        proc_macro_enable: false,
        cargo_all_features: false,
        cargo_no_default_features: false,
        cargo_load_out_dirs_from_check: false,
        cargo_target: None,
        cargo_features: Seq::empty(),
        lru_capacity: None,
        linked_projects: Seq::empty(),
    }
}

/// The option that a JSON pointer names, if it names one.
pub open spec fn key_of(k: Seq<char>) -> Option<OptionKey> {
    if k == "/withSysroot"@ {
        Some(OptionKey::WithSysroot)
    } else if k == "/procMacro/enable"@ {
        Some(OptionKey::ProcMacroEnable)
    } else if k == "/cargo/allFeatures"@ {
        Some(OptionKey::CargoAllFeatures)
    } else if k == "/cargo/noDefaultFeatures"@ {
        Some(OptionKey::CargoNoDefaultFeatures)
    } else if k == "/cargo/loadOutDirsFromCheck"@ {
        Some(OptionKey::CargoLoadOutDirsFromCheck)
    } else if k == "/cargo/target"@ {
        Some(OptionKey::CargoTarget)
    } else if k == "/cargo/features"@ {
        Some(OptionKey::CargoFeatures)
    } else if k == "/lruCapacity"@ {
        Some(OptionKey::LruCapacity)
    } else if k == "/linkedProjects"@ {
        Some(OptionKey::LinkedProjects)
    } else {
        None
    }
}

/// Whether a value has the shape that the option takes.
pub open spec fn fits(k: OptionKey, v: OptionValue) -> bool {
    match k {
        OptionKey::CargoTarget => v is Text,
        OptionKey::CargoFeatures | OptionKey::LinkedProjects => v is List,
        OptionKey::LruCapacity => v is Number,
        _ => v is Bool,
    }
}

/// Whether the option `k` of `o` holds the value `v`.
pub open spec fn holds(o: OptionsView, k: OptionKey, v: OptionValue) -> bool {
    match (k, v) {
        (OptionKey::WithSysroot, OptionValue::Bool(b)) => o.with_sysroot == b,
        (OptionKey::ProcMacroEnable, OptionValue::Bool(b)) => o.proc_macro_enable == b,
        (OptionKey::CargoAllFeatures, OptionValue::Bool(b)) => o.cargo_all_features == b,
        (OptionKey::CargoNoDefaultFeatures, OptionValue::Bool(b)) => o.cargo_no_default_features
            == b,
        (OptionKey::CargoLoadOutDirsFromCheck, OptionValue::Bool(b)) => o.cargo_load_out_dirs_from_check
            == b,
        (OptionKey::CargoTarget, OptionValue::Text(t)) => o.cargo_target == Some(t@),
        (OptionKey::CargoFeatures, OptionValue::List(l)) => o.cargo_features == texts(l@),
        (OptionKey::LruCapacity, OptionValue::Number(n)) => o.lru_capacity == Some(n),
        (OptionKey::LinkedProjects, OptionValue::List(l)) => o.linked_projects == texts(l@),
        _ => false,
    }
}

/// The option set after one entry: a recognized key with a value of the right
/// shape overrides its option; anything else leaves the set as it was.
pub open spec fn apply_entry(o: OptionsView, e: OptionEntry) -> OptionsView {
    match key_of(e.key@) {
        None => o,
        Some(k) => match (k, e.value) {
            (OptionKey::WithSysroot, OptionValue::Bool(b)) => OptionsView { with_sysroot: b, ..o },
            (OptionKey::ProcMacroEnable, OptionValue::Bool(b)) => OptionsView {
                proc_macro_enable: b,
                ..o
            },
            (OptionKey::CargoAllFeatures, OptionValue::Bool(b)) => OptionsView {
                cargo_all_features: b,
                ..o
            },
            (OptionKey::CargoNoDefaultFeatures, OptionValue::Bool(b)) => OptionsView {
                cargo_no_default_features: b,
                ..o
            },
            (OptionKey::CargoLoadOutDirsFromCheck, OptionValue::Bool(b)) => OptionsView {
                cargo_load_out_dirs_from_check: b,
                ..o
            },
            (OptionKey::CargoTarget, OptionValue::Text(t)) => OptionsView {
                cargo_target: Some(t@),
                ..o
            },
            (OptionKey::CargoFeatures, OptionValue::List(l)) => OptionsView {
                cargo_features: texts(l@),
                ..o
            },
            (OptionKey::LruCapacity, OptionValue::Number(n)) => OptionsView {
                lru_capacity: Some(n),
                ..o
            },
            (OptionKey::LinkedProjects, OptionValue::List(l)) => OptionsView {
                linked_projects: texts(l@),
                ..o
            },
            _ => o,
        },
    }
}

/// The option set after all entries of the payload, in order.
pub open spec fn overlay(o: OptionsView, entries: Seq<OptionEntry>) -> OptionsView
    decreases entries.len(),
{
    if entries.len() == 0 {
        o
    } else {
        apply_entry(overlay(o, entries.drop_last()), entries.last())
    }
}

/// The option that a JSON pointer names.
pub fn option_key(k: &str) -> (r: Option<OptionKey>)
    ensures
        r == key_of(k@),
{
    if str_eq(k, "/withSysroot") {
        Some(OptionKey::WithSysroot)
    } else if str_eq(k, "/procMacro/enable") {
        Some(OptionKey::ProcMacroEnable)
    } else if str_eq(k, "/cargo/allFeatures") {
        Some(OptionKey::CargoAllFeatures)
    } else if str_eq(k, "/cargo/noDefaultFeatures") {
        Some(OptionKey::CargoNoDefaultFeatures)
    } else if str_eq(k, "/cargo/loadOutDirsFromCheck") {
        Some(OptionKey::CargoLoadOutDirsFromCheck)
    } else if str_eq(k, "/cargo/target") {
        Some(OptionKey::CargoTarget)
    } else if str_eq(k, "/cargo/features") {
        Some(OptionKey::CargoFeatures)
    } else if str_eq(k, "/lruCapacity") {
        Some(OptionKey::LruCapacity)
    } else if str_eq(k, "/linkedProjects") {
        Some(OptionKey::LinkedProjects)
    } else {
        None
    }
}

fn clone_texts(v: &Vec<String>) -> (r: Vec<String>)
    ensures
        texts(r@) == texts(v@),
{
    let mut out: Vec<String> = Vec::new();
    let mut i: usize = 0;
    while i < v.len()
        invariant
            i <= v@.len(),
            texts(out@) =~= texts(v@.subrange(0, i as int)),
        decreases v@.len() - i,
    {
        let ghost prev = out@;
        out.push(v[i].clone());
        assert(texts(out@) =~= texts(prev).push(v@[i as int]@));
        assert(texts(v@.subrange(0, i + 1)) =~= texts(v@.subrange(0, i as int)).push(v@[i as int]@));
        i = i + 1;
    }
    assert(v@.subrange(0, v@.len() as int) =~= v@);
    out
}

impl Options {
    /// The default option set.
    pub fn new() -> (r: Options)
        ensures
            r@ == default_options(),
    {
        let r = Options {
            with_sysroot: true,
            proc_macro_enable: false,
            cargo_all_features: false,
            cargo_no_default_features: false,
            cargo_load_out_dirs_from_check: false,
            cargo_target: None,
            cargo_features: Vec::new(),
            lru_capacity: None,
            linked_projects: Vec::new(),
        };
        assert(texts(r.cargo_features@) =~= Seq::empty());
        assert(texts(r.linked_projects@) =~= Seq::empty());
        r
    }

    /// Overrides one option from one entry of the payload.
    pub fn apply(&mut self, e: &OptionEntry)
        ensures
            final(self)@ == apply_entry(old(self)@, *e),
    {
        match option_key(e.key.as_str()) {
            None => {},
            Some(k) => match (k, &e.value) {
                (OptionKey::WithSysroot, OptionValue::Bool(b)) => self.with_sysroot = *b,
                (OptionKey::ProcMacroEnable, OptionValue::Bool(b)) => self.proc_macro_enable = *b,
                (OptionKey::CargoAllFeatures, OptionValue::Bool(b)) => self.cargo_all_features = *b,
                (OptionKey::CargoNoDefaultFeatures, OptionValue::Bool(b)) => {
                    self.cargo_no_default_features = *b
                },
                (OptionKey::CargoLoadOutDirsFromCheck, OptionValue::Bool(b)) => {
                    self.cargo_load_out_dirs_from_check = *b
                },
                (OptionKey::CargoTarget, OptionValue::Text(t)) => {
                    self.cargo_target = Some(t.clone())
                },
                (OptionKey::CargoFeatures, OptionValue::List(l)) => {
                    self.cargo_features = clone_texts(l)
                },
                (OptionKey::LruCapacity, OptionValue::Number(n)) => self.lru_capacity = Some(*n),
                (OptionKey::LinkedProjects, OptionValue::List(l)) => {
                    self.linked_projects = clone_texts(l)
                },
                _ => {},
            },
        }
    }

    /// Merges the initialization options payload onto this option set, entry
    /// by entry: recognized keys override, all other keys are ignored.
    pub fn update(&mut self, entries: &Vec<OptionEntry>)
        ensures
            final(self)@ == overlay(old(self)@, entries@),
    {
        let mut i: usize = 0;
        while i < entries.len()
            invariant
                i <= entries@.len(),
                self@ == overlay(old(self)@, entries@.subrange(0, i as int)),
            decreases entries@.len() - i,
        {
            assert(entries@.subrange(0, i + 1).drop_last() =~= entries@.subrange(0, i as int));
            self.apply(&entries[i]);
            i = i + 1;
        }
        assert(entries@.subrange(0, entries@.len() as int) =~= entries@);
    }
}

/// An entry with a recognized key and a value of the right shape, which no
/// later entry of the payload overrides, decides that option in the merged set.
pub proof fn lemma_recognized_key_overrides(base: OptionsView, entries: Seq<OptionEntry>, i: int)
    requires
        0 <= i < entries.len(),
        key_of(entries[i].key@) is Some,
        fits(key_of(entries[i].key@)->0, entries[i].value),
        forall|j: int| i < j < entries.len() ==> key_of(entries[j].key@) != key_of(entries[i].key@),
    ensures
        holds(overlay(base, entries), key_of(entries[i].key@)->0, entries[i].value),
    decreases entries.len(),
{
    let k = key_of(entries[i].key@)->0;
    let v = entries[i].value;
    let prev = overlay(base, entries.drop_last());
    if i < entries.len() - 1 {
        lemma_recognized_key_overrides(base, entries.drop_last(), i);
        assert(entries.drop_last()[i] == entries[i]);
        assert(key_of(entries.last().key@) != Some(k));
    }
}

/// An entry whose key names no option leaves the merged set as it was.
pub proof fn lemma_unrecognized_key_ignored(base: OptionsView, entries: Seq<OptionEntry>, e: OptionEntry)
    requires
        key_of(e.key@) is None,
    ensures
        overlay(base, entries.push(e)) == overlay(base, entries),
{
    assert(entries.push(e).drop_last() =~= entries);
}

} // verus!
