use crate::model::{Platform, TrayIconKind};
use crate::text::same_text;
use vstd::prelude::*;

verus! {

/// One of the four pictures the tray can show.
#[derive(Clone, Copy, Debug, PartialEq, Eq, Structural)]
pub enum IconAsset {
    Base,
    BaseTemplate,
    New,
    NewTemplate,
}

/// A primitive of the platform tray.
#[derive(Clone, Copy, Debug, PartialEq, Eq, Structural)]
pub enum TrayOperation {
    Destroy,
    Create,
    SetIcon,
    SetTitle,
    SetTooltip,
}

/// Why the tray could not be brought into the state asked for.
#[derive(Debug, PartialEq, Eq)]
pub enum TraySurfaceError {
    /// The host could not carry out a tray primitive.
    PlatformOperationFailed { operation: TrayOperation, cause: String },
    /// An icon was asked for by a name that is none of the known ones.
    UnknownTrayIconRequested,
}

/// What an entry of the tray menu is.
#[derive(Clone, Copy, Debug, PartialEq, Eq, Structural)]
pub enum EntryKind {
    Item,
    Separator,
    Disabled,
}

/// An entry of the tray menu.
#[derive(Debug, PartialEq, Eq)]
pub struct MenuEntry {
    pub id: String,
    pub label: String,
    pub kind: EntryKind,
}

/// An entry of the tray menu, its texts as sequences of characters.
pub struct MenuEntryView {
    pub id: Seq<char>,
    pub label: Seq<char>,
    pub kind: EntryKind,
}

impl View for MenuEntry {
    type V = MenuEntryView;

    open spec fn view(&self) -> MenuEntryView {
        MenuEntryView { id: self.id@, label: self.label@, kind: self.kind }
    }
}

/// Everything a tray is created from.
#[derive(Debug, PartialEq, Eq)]
pub struct TraySpec {
    pub icon: IconAsset,
    pub menu: Vec<MenuEntry>,
    pub tooltip: Option<String>,
    pub title: Option<String>,
    /// The icon is a template image.
    pub template_icon: bool,
    /// A left click opens the menu instead of being reported.
    pub menu_on_left_click: bool,
}

/// Everything a tray is created from, its texts as sequences of characters.
pub struct TraySpecView {
    pub icon: IconAsset,
    pub menu: Seq<MenuEntryView>,
    pub tooltip: Option<Seq<char>>,
    pub title: Option<Seq<char>>,
    pub template_icon: bool,
    pub menu_on_left_click: bool,
}

/// The characters of a text that may be absent.
pub open spec fn text_of(text: Option<String>) -> Option<Seq<char>> {
    match text {
        Some(text) => Some(text@),
        None => None,
    }
}

/// The entries of a menu, their texts as sequences of characters.
pub open spec fn entries_of(menu: Seq<MenuEntry>) -> Seq<MenuEntryView> {
    menu.map_values(|entry: MenuEntry| entry@)
}

impl View for TraySpec {
    type V = TraySpecView;

    open spec fn view(&self) -> TraySpecView {
        TraySpecView {
            icon: self.icon,
            menu: entries_of(self.menu@),
            tooltip: text_of(self.tooltip),
            title: text_of(self.title),
            template_icon: self.template_icon,
            menu_on_left_click: self.menu_on_left_click,
        }
    }
}

/// One thing the host is asked to do to the tray registered as `"tray"`.
#[derive(Debug, PartialEq, Eq)]
pub enum TrayOp {
    /// Remove the tray that is registered.
    Destroy,
    /// Register a new tray.
    Create(TraySpec),
    SetIcon(IconAsset),
    SetTitle(String),
    SetTooltip(String),
}

/// A tray operation, its texts as sequences of characters.
pub enum TrayOpView {
    Destroy,
    Create(TraySpecView),
    SetIcon(IconAsset),
    SetTitle(Seq<char>),
    SetTooltip(Seq<char>),
}

impl View for TrayOp {
    type V = TrayOpView;

    open spec fn view(&self) -> TrayOpView {
        match self {
            TrayOp::Destroy => TrayOpView::Destroy,
            TrayOp::Create(spec) => TrayOpView::Create(spec@),
            TrayOp::SetIcon(asset) => TrayOpView::SetIcon(*asset),
            TrayOp::SetTitle(text) => TrayOpView::SetTitle(text@),
            TrayOp::SetTooltip(text) => TrayOpView::SetTooltip(text@),
        }
    }
}

/// The operations of a plan, their texts as sequences of characters.
pub open spec fn ops_of(plan: Seq<TrayOp>) -> Seq<TrayOpView> {
    plan.map_values(|op: TrayOp| op@)
}

/// The icon kind that a name stands for, if it stands for one.
pub open spec fn kind_named(name: Seq<char>) -> Option<TrayIconKind> {
    if name == "base"@ {
        Some(TrayIconKind::Base)
    } else if name == "new"@ {
        Some(TrayIconKind::New)
    } else {
        None
    }
}

/// The picture for an icon kind on a platform.
pub open spec fn asset_for(kind: TrayIconKind, platform: Platform) -> IconAsset {
    match kind {
        TrayIconKind::Base => if platform.template_icons {
            IconAsset::BaseTemplate
        } else {
            IconAsset::Base
        },
        TrayIconKind::New => if platform.template_icons {
            IconAsset::NewTemplate
        } else {
            IconAsset::New
        },
    }
}

/// The icon kind for the flag of the user interface: `true` announces something new.
pub open spec fn kind_for(new_icon: bool) -> TrayIconKind {
    if new_icon {
        TrayIconKind::New
    } else {
        TrayIconKind::Base
    }
}

/// The file that holds a picture.
pub open spec fn asset_file(asset: IconAsset) -> Seq<char> {
    match asset {
        IconAsset::Base => "tray-base.png"@,
        IconAsset::BaseTemplate => "tray-base-macos.png"@,
        IconAsset::New => "tray-new.png"@,
        IconAsset::NewTemplate => "tray-new-macos.png"@,
    }
}

/// The menu a tray starts with: the dashboard entry, a separator, the quit entry.
pub open spec fn first_menu() -> Seq<MenuEntryView> {
    seq![
        MenuEntryView { id: "dashboard"@, label: "Dashboard..."@, kind: EntryKind::Item },
        MenuEntryView { id: ""@, label: ""@, kind: EntryKind::Separator },
        MenuEntryView { id: "quit"@, label: "Quit"@, kind: EntryKind::Item },
    ]
}

/// What a tray is created from. The title is kept only where the platform
/// shows one; where icons are templates a left click is reported instead of
/// opening the menu.
pub open spec fn tray_spec(
    menu: Seq<MenuEntryView>,
    icon: TrayIconKind,
    tooltip: Option<Seq<char>>,
    title: Option<Seq<char>>,
    platform: Platform,
) -> TraySpecView {
    TraySpecView {
        icon: asset_for(icon, platform),
        menu,
        tooltip,
        title: if platform.tray_title {
            title
        } else {
            None
        },
        template_icon: platform.template_icons,
        menu_on_left_click: !platform.template_icons,
    }
}

/// Removing the tray that is registered, if one is.
pub open spec fn clearing(registered: bool) -> Seq<TrayOpView> {
    if registered {
        seq![TrayOpView::Destroy]
    } else {
        Seq::empty()
    }
}

/// Building the tray anew: the registered one is removed first, so that there are never two.
pub open spec fn rebuilding(
    registered: bool,
    menu: Seq<MenuEntryView>,
    icon: TrayIconKind,
    tooltip: Option<Seq<char>>,
    title: Option<Seq<char>>,
    platform: Platform,
) -> Seq<TrayOpView> {
    clearing(registered).push(TrayOpView::Create(tray_spec(menu, icon, tooltip, title, platform)))
}

/// Showing or hiding the tray: the registered one is removed, and to show it a
/// new one is built with the resting icon and the first menu.
pub open spec fn toggling(registered: bool, show: bool, platform: Platform) -> Seq<TrayOpView> {
    if show {
        rebuilding(registered, first_menu(), TrayIconKind::Base, None, None, platform)
    } else {
        clearing(registered)
    }
}

/// Setting the title, where the platform shows one; else nothing.
pub open spec fn titling(title: Option<Seq<char>>, platform: Platform) -> Seq<TrayOpView> {
    match title {
        Some(text) => if platform.tray_title {
            seq![TrayOpView::SetTitle(text)]
        } else {
            Seq::empty()
        },
        None => Seq::empty(),
    }
}

/// Setting the tooltip, if one is given.
pub open spec fn describing(description: Option<Seq<char>>) -> Seq<TrayOpView> {
    match description {
        Some(text) => seq![TrayOpView::SetTooltip(text)],
        None => Seq::empty(),
    }
}

/// Setting the icon, if a flag is given.
pub open spec fn picturing(new_icon: Option<bool>, platform: Platform) -> Seq<TrayOpView> {
    match new_icon {
        Some(flag) => seq![TrayOpView::SetIcon(asset_for(kind_for(flag), platform))],
        None => Seq::empty(),
    }
}

/// Updating the tray in place: title, then tooltip, then icon, each only if given.
pub open spec fn updating(
    title: Option<Seq<char>>,
    description: Option<Seq<char>>,
    new_icon: Option<bool>,
    platform: Platform,
) -> Seq<TrayOpView> {
    titling(title, platform) + describing(description) + picturing(new_icon, platform)
}

/// The primitive that an operation is carried out with.
pub open spec fn operation_of(op: TrayOpView) -> TrayOperation {
    match op {
        TrayOpView::Destroy => TrayOperation::Destroy,
        TrayOpView::Create(_) => TrayOperation::Create,
        TrayOpView::SetIcon(_) => TrayOperation::SetIcon,
        TrayOpView::SetTitle(_) => TrayOperation::SetTitle,
        TrayOpView::SetTooltip(_) => TrayOperation::SetTooltip,
    }
}

/// Reads the name of an icon kind.
pub fn icon_kind(name: &str) -> (kind: Result<TrayIconKind, TraySurfaceError>)
    ensures
        match kind {
            Ok(kind) => kind_named(name@) == Some(kind),
            Err(error) => kind_named(name@) is None && error
                == TraySurfaceError::UnknownTrayIconRequested,
        },
{
    if same_text(name, "base") {
        Ok(TrayIconKind::Base)
    } else if same_text(name, "new") {
        Ok(TrayIconKind::New)
    } else {
        Err(TraySurfaceError::UnknownTrayIconRequested)
    }
}

/// Picks the picture for an icon kind on a platform.
pub fn icon_asset(kind: TrayIconKind, platform: Platform) -> (asset: IconAsset)
    ensures
        asset == asset_for(kind, platform),
{
    match kind {
        TrayIconKind::Base => if platform.template_icons {
            IconAsset::BaseTemplate
        } else {
            IconAsset::Base
        },
        TrayIconKind::New => if platform.template_icons {
            IconAsset::NewTemplate
        } else {
            IconAsset::New
        },
    }
}

/// Picks the picture for the icon with this name on a platform.
pub fn get_raw_tray_icon(image: &str, platform: Platform) -> (asset: Result<
    IconAsset,
    TraySurfaceError,
>)
    ensures
        match asset {
            Ok(asset) => kind_named(image@) matches Some(kind) && asset == asset_for(
                kind,
                platform,
            ),
            Err(error) => kind_named(image@) is None && error
                == TraySurfaceError::UnknownTrayIconRequested,
        },
{
    match icon_kind(image) {
        Ok(kind) => Ok(icon_asset(kind, platform)),
        Err(error) => Err(error),
    }
}

impl IconAsset {
    /// The name of the file that holds the picture.
    pub fn file_name(self) -> (name: &'static str)
        ensures
            name@ == asset_file(self),
    {
        match self {
            IconAsset::Base => "tray-base.png",
            IconAsset::BaseTemplate => "tray-base-macos.png",
            IconAsset::New => "tray-new.png",
            IconAsset::NewTemplate => "tray-new-macos.png",
        }
    }
}

fn entry(id: &str, label: &str, kind: EntryKind) -> (entry: MenuEntry)
    ensures
        entry@ == (MenuEntryView { id: id@, label: label@, kind }),
{
    MenuEntry { id: id.to_owned(), label: label.to_owned(), kind }
}

/// The menu a tray starts with.
pub fn default_menu() -> (menu: Vec<MenuEntry>)
    ensures
        entries_of(menu@) == first_menu(),
{
    let mut menu: Vec<MenuEntry> = Vec::new();
    menu.push(entry("dashboard", "Dashboard...", EntryKind::Item));
    menu.push(entry("", "", EntryKind::Separator));
    menu.push(entry("quit", "Quit", EntryKind::Item));
    assert(entries_of(menu@) =~= first_menu());
    menu
}

fn clear(registered: bool) -> (plan: Vec<TrayOp>)
    ensures
        ops_of(plan@) == clearing(registered),
{
    let mut plan: Vec<TrayOp> = Vec::new();
    if registered {
        plan.push(TrayOp::Destroy);
    }
    assert(ops_of(plan@) =~= clearing(registered));
    plan
}

/// Plans the building of the tray: `registered` says whether one is registered at present.
pub fn rebuild(
    registered: bool,
    menu: Vec<MenuEntry>,
    icon: TrayIconKind,
    tooltip: Option<String>,
    title: Option<String>,
    platform: Platform,
) -> (plan: Vec<TrayOp>)
    ensures
        ops_of(plan@) == rebuilding(
            registered,
            entries_of(menu@),
            icon,
            text_of(tooltip),
            text_of(title),
            platform,
        ),
{
    let mut plan = clear(registered);
    let shown = if platform.tray_title {
        title
    } else {
        None
    };
    let spec = TraySpec {
        icon: icon_asset(icon, platform),
        menu,
        tooltip,
        title: shown,
        template_icon: platform.template_icons,
        menu_on_left_click: !platform.template_icons,
    };
    plan.push(TrayOp::Create(spec));
    assert(ops_of(plan@) =~= rebuilding(
        registered,
        entries_of(menu@),
        icon,
        text_of(tooltip),
        text_of(title),
        platform,
    ));
    plan
}

/// Plans the showing or hiding of the tray: `registered` says whether one is registered at present.
pub fn toggle_tray(registered: bool, show: bool, platform: Platform) -> (plan: Vec<TrayOp>)
    ensures
        ops_of(plan@) == toggling(registered, show, platform),
{
    if show {
        rebuild(registered, default_menu(), TrayIconKind::Base, None, None, platform)
    } else {
        clear(registered)
    }
}

/// Plans the setting of the icon.
pub fn set_icon(kind: TrayIconKind, platform: Platform) -> (op: TrayOp)
    ensures
        op@ == TrayOpView::SetIcon(asset_for(kind, platform)),
{
    TrayOp::SetIcon(icon_asset(kind, platform))
}

/// Plans the setting of the title: where the platform shows none, there is nothing to do.
pub fn set_title(text: String, platform: Platform) -> (op: Option<TrayOp>)
    ensures
        match op {
            Some(op) => platform.tray_title && op@ == TrayOpView::SetTitle(text@),
            None => !platform.tray_title,
        },
{
    if platform.tray_title {
        Some(TrayOp::SetTitle(text))
    } else {
        None
    }
}

/// Plans an update of the tray in place.
pub fn update_tray(
    title: Option<String>,
    description: Option<String>,
    new_icon: Option<bool>,
    platform: Platform,
) -> (plan: Vec<TrayOp>)
    ensures
        ops_of(plan@) == updating(text_of(title), text_of(description), new_icon, platform),
{
    let mut plan: Vec<TrayOp> = Vec::new();
    match title {
        Some(text) => {
            if platform.tray_title {
                plan.push(TrayOp::SetTitle(text));
            }
        },
        None => {},
    }
    assert(ops_of(plan@) =~= titling(text_of(title), platform));
    match description {
        Some(text) => {
            plan.push(TrayOp::SetTooltip(text));
        },
        None => {},
    }
    assert(ops_of(plan@) =~= titling(text_of(title), platform) + describing(text_of(description)));
    match new_icon {
        Some(flag) => {
            let kind = if flag {
                TrayIconKind::New
            } else {
                TrayIconKind::Base
            };
            plan.push(TrayOp::SetIcon(icon_asset(kind, platform)));
        },
        None => {},
    }
    assert(ops_of(plan@) =~= updating(
        text_of(title),
        text_of(description),
        new_icon,
        platform,
    ));
    plan
}

/// Names the failure of a tray operation.
pub fn tray_failure(op: &TrayOp, cause: String) -> (error: TraySurfaceError)
    ensures
        error == (TraySurfaceError::PlatformOperationFailed {
            operation: operation_of(op@),
            cause,
        }),
{
    let operation = match op {
        TrayOp::Destroy => TrayOperation::Destroy,
        TrayOp::Create(_) => TrayOperation::Create,
        TrayOp::SetIcon(_) => TrayOperation::SetIcon,
        TrayOp::SetTitle(_) => TrayOperation::SetTitle,
        TrayOp::SetTooltip(_) => TrayOperation::SetTooltip,
    };
    TraySurfaceError::PlatformOperationFailed { operation, cause }
}

/// A build of the tray never leaves two: whatever was registered is removed
/// before the new one is created, and nothing is created twice.
pub proof fn rebuild_registers_one_tray(
    registered: bool,
    menu: Seq<MenuEntryView>,
    icon: TrayIconKind,
    tooltip: Option<Seq<char>>,
    title: Option<Seq<char>>,
    platform: Platform,
)
    ensures
        ({
            let plan = rebuilding(registered, menu, icon, tooltip, title, platform);
            &&& plan.len() == if registered { 2nat } else { 1nat }
            &&& plan.last() is Create
            &&& registered ==> plan[0] is Destroy
            &&& forall|at: int| 0 <= at < plan.len() - 1 ==> !(#[trigger] plan[at] is Create)
        }),
{
}

/// Where the platform shows no tray title, an update never sets one and a
/// build carries none, whatever title is given.
pub proof fn title_is_left_out_without_capability(
    menu: Seq<MenuEntryView>,
    icon: TrayIconKind,
    title: Option<Seq<char>>,
    description: Option<Seq<char>>,
    new_icon: Option<bool>,
    platform: Platform,
)
    requires
        !platform.tray_title,
    ensures
        forall|at: int|
            0 <= at < updating(title, description, new_icon, platform).len() ==> !(
            #[trigger] updating(title, description, new_icon, platform)[at] is SetTitle),
        tray_spec(menu, icon, description, title, platform).title is None,
{
}

} // verus!
