//! Commands the running bar sends to itself: reload a module, reload a
//! style sheet.
use vstd::prelude::*;

verus! {

/// Name of a module, as configured and as its script file is named.
#[derive(Debug, Clone, PartialEq, Eq, Hash)]
pub struct ModuleName(String);

impl View for ModuleName {
    type V = Seq<char>;

    closed spec fn view(&self) -> Seq<char> {
        self.0@
    }
}

impl ModuleName {
    pub fn new(name: &str) -> (res: Self)
        ensures
            res@ == name@,
    {
        ModuleName(name.to_owned())
    }

    pub fn as_str(&self) -> (res: &str)
        ensures
            res@ == self@,
    {
        self.0.as_str()
    }

    pub fn duplicate(&self) -> (res: Self)
        ensures
            res@ == self@,
    {
        ModuleName(self.0.clone())
    }
}

/// Name of a style sheet; never empty.
#[derive(Debug, Clone, PartialEq, Eq, Hash)]
pub struct StyleSheetName(String);

impl View for StyleSheetName {
    type V = Seq<char>;

    closed spec fn view(&self) -> Seq<char> {
        self.0@
    }
}

impl StyleSheetName {
    /// The style sheet called `name`; `None` for an empty name.
    pub fn new(name: &str) -> (res: Option<Self>)
        ensures
            match res {
                Some(n) => name@.len() > 0 && n@ == name@,
                None => name@.len() == 0,
            },
    {
        if name.unicode_len() == 0 {
            None
        } else {
            Some(StyleSheetName(name.to_owned()))
        }
    }

    pub fn as_str(&self) -> (res: &str)
        ensures
            res@ == self@,
    {
        self.0.as_str()
    }
}

/// A command to the running bar.
#[derive(Debug, Clone, PartialEq, Eq)]
pub enum SystemCommand {
    ReloadModule(ModuleName),
    ReloadStyle(StyleSheetName),
}

pub enum SystemCommandView {
    ReloadModule(Seq<char>),
    ReloadStyle(Seq<char>),
}

impl View for SystemCommand {
    type V = SystemCommandView;

    open spec fn view(&self) -> SystemCommandView {
        match self {
            SystemCommand::ReloadModule(n) => SystemCommandView::ReloadModule(n@),
            SystemCommand::ReloadStyle(n) => SystemCommandView::ReloadStyle(n@),
        }
    }
}

/// Something that delivers commands to the running bar.
pub trait SystemCommandSender {
    fn send_system_command(&self, cmd: SystemCommand);
}

/// The command that a changed script file asks for: reload the module named
/// after the file's stem.
pub fn reload_for_script(stem: &str) -> (res: SystemCommand)
    ensures
        res@ == SystemCommandView::ReloadModule(stem@),
{
    SystemCommand::ReloadModule(ModuleName::new(stem))
}

} // verus!
