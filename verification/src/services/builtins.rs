//! Where module scripts are looked up, and the errors of that lookup.
use vstd::prelude::*;
use crate::services::commands::ModuleName;

verus! {

broadcast use vstd::string::group_string_axioms;

/// Why a module script could not be found or loaded.
#[derive(Debug, PartialEq, Eq)]
pub enum BuiltinError {
    Env(String),
    Io(String),
    UnsupportedEngine { engine: String, module_name: ModuleName },
    ModuleNotFound { module_name: ModuleName, engine_suffix: String },
}

impl BuiltinError {
    /// The message of the error, as it is displayed.
    pub fn to_string(&self) -> (res: String)
        ensures
            res@ == match self {
                BuiltinError::Env(s) => "HOME environment variable not set: "@ + s@,
                BuiltinError::Io(s) => "IO error: "@ + s@,
                BuiltinError::UnsupportedEngine { engine, module_name } => "Unsupported engine '"@
                    + engine@ + "' for module '"@ + module_name@
                    + "' (expected 'rhai' or 'lua')"@,
                BuiltinError::ModuleNotFound { module_name, engine_suffix } => "Module '"@
                    + module_name@ + "' not found"@ + engine_suffix@,
            },
    {
        match self {
            BuiltinError::Env(s) => {
                let mut m = "HOME environment variable not set: ".to_owned();
                m.append(s.as_str());
                m
            },
            BuiltinError::Io(s) => {
                let mut m = "IO error: ".to_owned();
                m.append(s.as_str());
                m
            },
            BuiltinError::UnsupportedEngine { engine, module_name } => {
                let mut m = "Unsupported engine '".to_owned();
                m.append(engine.as_str());
                m.append("' for module '");
                m.append(module_name.as_str());
                m.append("' (expected 'rhai' or 'lua')");
                m
            },
            BuiltinError::ModuleNotFound { module_name, engine_suffix } => {
                let mut m = "Module '".to_owned();
                m.append(module_name.as_str());
                m.append("' not found");
                m.append(engine_suffix.as_str());
                m
            },
        }
    }
}

/// The module scripts shipped with the bar, and how a module is looked up.
pub struct BuiltinModules;

impl BuiltinModules {
    /// The tail of a not-found message: the engine, when one was asked for.
    pub fn engine_suffix(engine: Option<&str>) -> (res: String)
        ensures
            res@ == match engine {
                Some(e) => " (engine: "@ + e@ + ")"@,
                None => Seq::empty(),
            },
    {
        match engine {
            Some(e) => {
                let mut m = " (engine: ".to_owned();
                m.append(e);
                m.append(")");
                m
            },
            None => String::new(),
        }
    }

    /// The file a module's script is in: its name and the engine's extension.
    pub fn script_file_name(name: &ModuleName, extension: &str) -> (res: String)
        ensures
            res@ == name@ + "."@ + extension@,
    {
        let mut m = name.as_str().to_owned();
        m.append(".");
        m.append(extension);
        m
    }

    /// The error when no directory holds a loadable script.
    pub fn not_found(name: &ModuleName, engine: Option<&str>) -> (res: BuiltinError)
        ensures
            res matches BuiltinError::ModuleNotFound { module_name, engine_suffix } && module_name@
                == name@ && engine_suffix@ == match engine {
                Some(e) => " (engine: "@ + e@ + ")"@,
                None => Seq::<char>::empty(),
            },
    {
        BuiltinError::ModuleNotFound {
            module_name: name.duplicate(),
            engine_suffix: Self::engine_suffix(engine),
        }
    }

    /// The engines, by position among the registered `engines` (given by
    /// their identifiers), that a module is looked up with: all of them when
    /// `selection` leaves the choice open, else those whose identifier is
    /// the one asked for. Asking for an engine that is not registered is an
    /// error.
    pub fn select_engines(name: &ModuleName, selection: Option<&str>, engines: &Vec<String>) -> (res:
        Result<Vec<usize>, BuiltinError>)
        ensures
            ({
                let chosen = engines_chosen(
                    engines@.map_values(|e: String| e@),
                    opt_str_view(selection),
                    engines@.len() as int,
                );
                match res {
                    Ok(v) => v@.map_values(|i: usize| i as int) == chosen && (selection is None
                        || chosen.len() > 0),
                    Err(e) => {
                        &&& selection is Some
                        &&& chosen.len() == 0
                        &&& e matches BuiltinError::UnsupportedEngine { engine, module_name }
                        &&& engine@ == selection.unwrap()@
                        &&& module_name@ == name@
                    },
                }
            }),
    {
        let ghost es = engines@.map_values(|e: String| e@);
        let ghost sel = opt_str_view(selection);
        let mut chosen: Vec<usize> = Vec::new();
        let mut i: usize = 0;
        while i < engines.len()
            invariant
                es == engines@.map_values(|e: String| e@),
                sel == opt_str_view(selection),
                i <= engines@.len(),
                chosen@.map_values(|k: usize| k as int) == engines_chosen(es, sel, i as int),
            decreases engines@.len() - i,
        {
            let ghost before = chosen@;
            let take = match selection {
                None => true,
                Some(id) => {
                    let owned = id.to_owned();
                    engines[i] == owned
                },
            };
            assert(es[i as int] == engines@[i as int]@);
            if take {
                chosen.push(i);
                assert(chosen@.map_values(|k: usize| k as int) =~= before.map_values(
                    |k: usize| k as int,
                ).push(i as int));
            }
            i = i + 1;
        }
        match selection {
            Some(id) => {
                if chosen.len() == 0 {
                    return Err(
                        BuiltinError::UnsupportedEngine {
                            engine: id.to_owned(),
                            module_name: name.duplicate(),
                        },
                    );
                }
                Ok(chosen)
            },
            None => {
                proof {
                    lemma_all_engines_chosen(es, engines@.len() as int);
                }
                Ok(chosen)
            },
        }
    }
}

/// The view of an optional text.
pub open spec fn opt_str_view(o: Option<&str>) -> Option<Seq<char>> {
    match o {
        Some(s) => Some(s@),
        None => None,
    }
}

/// Positions below `n` of the engines a selection picks: every one when it
/// is open, else those with the identifier asked for.
pub open spec fn engines_chosen(es: Seq<Seq<char>>, selection: Option<Seq<char>>, n: int) -> Seq<int>
    decreases n,
{
    if n <= 0 {
        seq![]
    } else {
        let before = engines_chosen(es, selection, n - 1);
        match selection {
            None => before.push(n - 1),
            Some(id) => if es[n - 1] == id {
                before.push(n - 1)
            } else {
                before
            },
        }
    }
}

/// An open selection keeps every engine, in order.
pub proof fn lemma_all_engines_chosen(es: Seq<Seq<char>>, n: int)
    requires
        0 <= n,
    ensures
        engines_chosen(es, None, n) == Seq::new(n as nat, |k: int| k),
    decreases n,
{
    if n > 0 {
        lemma_all_engines_chosen(es, n - 1);
        assert(engines_chosen(es, None, n) =~= Seq::new(n as nat, |k: int| k));
    }
}

} // verus!
