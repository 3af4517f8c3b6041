//! Tray applets (StatusNotifierItems): their identity, title, status and
//! icon, and the set the bar shows.
use vstd::prelude::*;
use crate::domain::shared::geometry::Size;
use std::collections::BTreeMap;

verus! {

/// What an applet reports about itself.
#[derive(Debug, Clone, Copy, PartialEq, Eq, Structural)]
pub enum AppletStatus {
    Active,
    Passive,
    NeedsAttention,
    Unknown,
}

/// Unique key of an applet: its bus name followed by its object path.
#[derive(Debug, Clone, PartialEq, Eq, PartialOrd, Ord, Hash)]
pub struct AppletId(String);

impl View for AppletId {
    type V = Seq<char>;

    closed spec fn view(&self) -> Seq<char> {
        self.0@
    }
}

impl AppletId {
    pub fn new(id: &str) -> (res: Self)
        ensures
            res@ == id@,
    {
        AppletId(id.to_owned())
    }

    pub fn as_str(&self) -> (res: &str)
        ensures
            res@ == self@,
    {
        self.0.as_str()
    }
}

/// Bus name an applet answers on.
#[derive(Debug, Clone, PartialEq, Eq)]
pub struct Destination(String);

impl View for Destination {
    type V = Seq<char>;

    closed spec fn view(&self) -> Seq<char> {
        self.0@
    }
}

impl Destination {
    pub fn new(dest: &str) -> (res: Self)
        ensures
            res@ == dest@,
    {
        Destination(dest.to_owned())
    }

    pub fn as_str(&self) -> (res: &str)
        ensures
            res@ == self@,
    {
        self.0.as_str()
    }
}

/// D-Bus object path of an applet.
#[derive(Debug, Clone, PartialEq, Eq)]
pub struct ObjectPath(String);

impl View for ObjectPath {
    type V = Seq<char>;

    closed spec fn view(&self) -> Seq<char> {
        self.0@
    }
}

impl ObjectPath {
    pub fn new(path: &str) -> (res: Self)
        ensures
            res@ == path@,
    {
        ObjectPath(path.to_owned())
    }

    pub fn as_str(&self) -> (res: &str)
        ensures
            res@ == self@,
    {
        self.0.as_str()
    }
}

/// Title an applet gives itself.
#[derive(Debug, Clone, PartialEq, Eq)]
pub struct Title(String);

impl View for Title {
    type V = Seq<char>;

    closed spec fn view(&self) -> Seq<char> {
        self.0@
    }
}

impl Title {
    pub fn new(title: &str) -> (res: Self)
        ensures
            res@ == title@,
    {
        Title(title.to_owned())
    }

    pub fn as_str(&self) -> (res: &str)
        ensures
            res@ == self@,
    {
        self.0.as_str()
    }
}

/// Name of an icon in the icon theme.
#[derive(Debug, Clone, PartialEq, Eq)]
pub struct IconName(String);

impl View for IconName {
    type V = Seq<char>;

    closed spec fn view(&self) -> Seq<char> {
        self.0@
    }
}

impl IconName {
    pub fn new(name: &str) -> (res: Self)
        ensures
            res@ == name@,
    {
        IconName(name.to_owned())
    }

    pub fn as_str(&self) -> (res: &str)
        ensures
            res@ == self@,
    {
        self.0.as_str()
    }
}

/// An icon as RGBA bytes, four per pixel, row by row.
#[derive(Debug, Clone, PartialEq, Eq)]
pub struct IconImage {
    data: Vec<u8>,
    size: Size,
}

impl IconImage {
    pub closed spec fn spec_data(&self) -> Seq<u8> {
        self.data@
    }

    pub closed spec fn spec_size(&self) -> (u32, u32) {
        self.size@
    }

    pub fn new(data: Vec<u8>, size: Size) -> (res: Self)
        ensures
            res.spec_data() == data@,
            res.spec_size() == size@,
    {
        IconImage { data, size }
    }

    pub fn data(&self) -> (res: &[u8])
        ensures
            res@ == self.spec_data(),
    {
        self.data.as_slice()
    }

    pub fn size(&self) -> (res: Size)
        ensures
            res@ == self.spec_size(),
    {
        self.size
    }
}

/// Everything needed to make an [`AppletItem`].
pub struct CreateAppletCommand {
    pub id: AppletId,
    pub destination: Destination,
    pub path: ObjectPath,
    pub title: Title,
    pub status: AppletStatus,
    pub icon_name: Option<IconName>,
    pub icon_image: Option<IconImage>,
    pub menu_path: Option<ObjectPath>,
}

/// One applet in the tray.
#[derive(Debug, Clone, PartialEq)]
pub struct AppletItem {
    id: AppletId,
    destination: Destination,
    path: ObjectPath,
    title: Title,
    status: AppletStatus,
    icon_name: Option<IconName>,
    icon_image: Option<IconImage>,
    menu_path: Option<ObjectPath>,
}

impl AppletItem {
    pub closed spec fn spec_id(&self) -> Seq<char> {
        self.id@
    }

    pub closed spec fn spec_destination(&self) -> Seq<char> {
        self.destination@
    }

    pub closed spec fn spec_path(&self) -> Seq<char> {
        self.path@
    }

    pub closed spec fn spec_title(&self) -> Seq<char> {
        self.title@
    }

    pub closed spec fn spec_status(&self) -> AppletStatus {
        self.status
    }

    pub closed spec fn spec_icon_name(&self) -> Option<IconName> {
        self.icon_name
    }

    pub closed spec fn spec_icon_image(&self) -> Option<IconImage> {
        self.icon_image
    }

    pub closed spec fn spec_menu_path(&self) -> Option<ObjectPath> {
        self.menu_path
    }

    pub fn new(cmd: CreateAppletCommand) -> (res: Self)
        ensures
            res.spec_id() == cmd.id@,
            res.spec_destination() == cmd.destination@,
            res.spec_path() == cmd.path@,
            res.spec_title() == cmd.title@,
            res.spec_status() == cmd.status,
            res.spec_icon_name() == cmd.icon_name,
            res.spec_icon_image() == cmd.icon_image,
            res.spec_menu_path() == cmd.menu_path,
    {
        AppletItem {
            id: cmd.id,
            destination: cmd.destination,
            path: cmd.path,
            title: cmd.title,
            status: cmd.status,
            icon_name: cmd.icon_name,
            icon_image: cmd.icon_image,
            menu_path: cmd.menu_path,
        }
    }

    pub fn id(&self) -> (res: &AppletId)
        ensures
            res@ == self.spec_id(),
    {
        &self.id
    }

    pub fn destination(&self) -> (res: &Destination)
        ensures
            res@ == self.spec_destination(),
    {
        &self.destination
    }

    pub fn path(&self) -> (res: &ObjectPath)
        ensures
            res@ == self.spec_path(),
    {
        &self.path
    }

    pub fn title(&self) -> (res: &Title)
        ensures
            res@ == self.spec_title(),
    {
        &self.title
    }

    pub fn status(&self) -> (res: AppletStatus)
        ensures
            res == self.spec_status(),
    {
        self.status
    }

    pub fn icon_name(&self) -> (res: Option<&IconName>)
        ensures
            match res {
                Some(n) => self.spec_icon_name() == Some(*n),
                None => self.spec_icon_name() is None,
            },
    {
        match &self.icon_name {
            Some(n) => Some(n),
            None => None,
        }
    }

    pub fn icon_image(&self) -> (res: Option<&IconImage>)
        ensures
            match res {
                Some(i) => self.spec_icon_image() == Some(*i),
                None => self.spec_icon_image() is None,
            },
    {
        match &self.icon_image {
            Some(i) => Some(i),
            None => None,
        }
    }

    pub fn menu_path(&self) -> (res: Option<&ObjectPath>)
        ensures
            match res {
                Some(p) => self.spec_menu_path() == Some(*p),
                None => self.spec_menu_path() is None,
            },
    {
        match &self.menu_path {
            Some(p) => Some(p),
            None => None,
        }
    }
}

/// The applets the tray shows, by id.
#[derive(Debug, Clone, PartialEq)]
pub struct AppletsState {
    items: BTreeMap<AppletId, AppletItem>,
}

impl AppletsState {
    pub closed spec fn spec_items(&self) -> BTreeMap<AppletId, AppletItem> {
        self.items
    }

    pub fn new(items: BTreeMap<AppletId, AppletItem>) -> (res: Self)
        ensures
            res.spec_items() == items,
    {
        AppletsState { items }
    }

    pub fn items(&self) -> (res: &BTreeMap<AppletId, AppletItem>)
        ensures
            *res == self.spec_items(),
    {
        &self.items
    }
}

impl Default for AppletsState {
    /// No applet.
    fn default() -> (res: Self)
        ensures
            res.spec_items()@ == Map::<AppletId, AppletItem>::empty(),
    {
        AppletsState { items: BTreeMap::new() }
    }
}

} // verus!
