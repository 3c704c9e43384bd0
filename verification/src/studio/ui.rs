//! The studio's page, tab and list-order choices, and the state of its
//! glyph directory and inspector panels.
use vstd::prelude::*;

use crate::font::Font;
use crate::maps::{glyph_map_entries, glyph_map_get_index, glyph_map_len};
use crate::sets::GlyphSet;
use crate::export::Exporter;
use crate::studio::project::{Action, Project};
use crate::studio::tools::{Tool, ToolState};
use crate::ucd::blocks::block_table;
use crate::ucd::Block;

verus! {

/// The studio's top-level pages.
#[derive(Debug, Clone, Copy, PartialEq, Eq, Structural)]
pub enum Page {
    Edit,
    Settings,
}

/// The inspector's tabs.
#[derive(Debug, Clone, Copy, PartialEq, Eq, Structural)]
pub enum Tab {
    Font,
    Directory,
    Glyph,
}

/// The colours of the glyph editor that can be set.
#[derive(Debug, Clone, Copy, PartialEq, Eq, Structural)]
pub enum EditorToken {
    Background,
    Gridlines,
    Glyph,
    Origin,
    Metrics,
    Guidelines,
}

/// The colour theme.
#[derive(Debug, Clone, Copy, PartialEq, Eq, Structural)]
pub enum Theme {
    /// Infer the colour theme from the system preferred scheme.
    Auto,
    /// Force a light theme.
    Light,
    /// Force a dark theme.
    Dark,
}

impl Default for Theme {
    fn default() -> (t: Self)
        ensures
            t == Theme::Auto,
    {
        Theme::Auto
    }
}

impl Theme {
    /// The themes offered to users, in the order they are listed.
    pub fn all() -> (v: Vec<Theme>)
        ensures
            v@ == seq![Theme::Auto, Theme::Dark, Theme::Light],
    {
        vec![Theme::Auto, Theme::Dark, Theme::Light]
    }

    /// The theme's name as shown to users.
    pub fn name(&self) -> (s: &'static str)
        ensures
            s@ == match self {
                Theme::Auto => "System"@,
                Theme::Dark => "Dark"@,
                Theme::Light => "Light"@,
            },
    {
        match self {
            Theme::Auto => "System",
            Theme::Dark => "Dark",
            Theme::Light => "Light",
        }
    }
}

/// How the inspector's glyph list is sorted.
#[derive(Debug, Clone, Copy, PartialEq, Eq, Structural)]
pub enum SortBy {
    /// Keep the font's order.
    Unsorted,
    Name,
    Unicode,
}

impl Default for SortBy {
    fn default() -> (s: Self)
        ensures
            s == SortBy::Unicode,
    {
        SortBy::Unicode
    }
}

impl SortBy {
    /// The orders offered to users, in the order they are listed.
    pub fn all() -> (v: Vec<SortBy>)
        ensures
            v@ == seq![SortBy::Unsorted, SortBy::Name, SortBy::Unicode],
    {
        vec![SortBy::Unsorted, SortBy::Name, SortBy::Unicode]
    }

    pub fn name(&self) -> (s: &'static str)
        ensures
            s@ == match self {
                SortBy::Unsorted => "None"@,
                SortBy::Name => "Name"@,
                SortBy::Unicode => "Unicode"@,
            },
    {
        match self {
            SortBy::Unsorted => "None",
            SortBy::Name => "Name",
            SortBy::Unicode => "Unicode",
        }
    }
}

/// How the glyph directory is ordered.
#[derive(Debug, Clone, Copy, PartialEq, Eq, Structural)]
pub enum DirectoryOrder {
    /// Don't order
    Unordered,
    /// Order by glyph name
    Name,
    /// Order by unicode mapping
    Unicode,
}

impl Default for DirectoryOrder {
    fn default() -> (o: Self)
        ensures
            o == DirectoryOrder::Unicode,
    {
        DirectoryOrder::Unicode
    }
}

impl DirectoryOrder {
    pub fn name(&self) -> (s: &'static str)
        ensures
            s@ == match self {
                DirectoryOrder::Unordered => "None"@,
                DirectoryOrder::Name => "Name"@,
                DirectoryOrder::Unicode => "Unicode"@,
            },
    {
        match self {
            DirectoryOrder::Unordered => "None",
            DirectoryOrder::Name => "Name",
            DirectoryOrder::Unicode => "Unicode",
        }
    }
}

// ---------------------------------------------------------------------------
// The glyph directory

/// The dialog that adds the glyphs of a Unicode block.
#[derive(Debug)]
pub struct NewFromUnicode {
    pub show: bool,
    pub selected: Block,
}

impl Default for NewFromUnicode {
    fn default() -> (n: Self)
        ensures
            !n.show,
            n.selected == block_table()[0],
    {
        let all = Block::all();
        proof {
            crate::ucd::blocks::lemma_blocks_not_empty();
        }
        NewFromUnicode { show: false, selected: all[0] }
    }
}

/// What the glyph directory can be asked to do.
#[derive(Debug)]
pub enum DirectoryMessage {
    SelectGlyph(String),
    SetFilter(String),
    SetOrder(DirectoryOrder),
    SetDropdown(Option<bool>),
    SetName(String),
    SetFamily(Option<String>),
    SetWeight(Option<String>),
    SetStyle(Option<String>),
    SetAuthor(Option<String>),
    SetCopyright(Option<String>),
    SetLicense(Option<String>),
    AddNewExtra,
    SetExtraKey(String, String),
    SetExtraValue(String, String),
    RemoveExtra(String),
    AddGlyphsFromSet(GlyphSet),
    AddGlyphsFromUnicodeBlock,
    CloseAddNewBlocks,
    SelectBlock(Block),
    SubmitBlock(Block),
}

/// The messages the directory handles itself; the others are not supported
/// yet.
pub open spec fn directory_handles(m: DirectoryMessage) -> bool {
    match m {
        DirectoryMessage::SetFilter(_) => true,
        DirectoryMessage::SetOrder(_) => true,
        DirectoryMessage::SetDropdown(_) => true,
        DirectoryMessage::AddGlyphsFromUnicodeBlock => true,
        DirectoryMessage::CloseAddNewBlocks => true,
        DirectoryMessage::SelectBlock(_) => true,
        DirectoryMessage::SubmitBlock(_) => true,
        _ => false,
    }
}

/// The glyph directory panel: its text filter, its order, whether the
/// glyph-set drop-down is open, and the Unicode block dialog.
#[derive(Debug)]
pub struct Directory {
    pub filter: Option<String>,
    pub order: DirectoryOrder,
    pub set_dropdown_shown: bool,
    pub new_from_unicode: NewFromUnicode,
}

pub struct DirectoryView {
    pub filter: Option<Seq<char>>,
    pub order: DirectoryOrder,
    pub set_dropdown_shown: bool,
    pub show_blocks: bool,
    pub selected_block: Block,
}

impl View for Directory {
    type V = DirectoryView;

    open spec fn view(&self) -> DirectoryView {
        DirectoryView {
            filter: crate::font::opt_string_view(self.filter),
            order: self.order,
            set_dropdown_shown: self.set_dropdown_shown,
            show_blocks: self.new_from_unicode.show,
            selected_block: self.new_from_unicode.selected,
        }
    }
}

impl Default for Directory {
    fn default() -> (d: Self)
        ensures
            d@ == (DirectoryView {
                filter: None,
                order: DirectoryOrder::Unicode,
                set_dropdown_shown: false,
                show_blocks: false,
                selected_block: block_table()[0],
            }),
    {
        Directory {
            filter: None,
            order: DirectoryOrder::default(),
            set_dropdown_shown: false,
            new_from_unicode: NewFromUnicode::default(),
        }
    }
}

/// The directory after `m`: an empty filter is no filter; the drop-down is
/// set, or toggled where no state is given; opening the block dialog closes
/// the drop-down.
pub open spec fn directory_after(d: DirectoryView, m: DirectoryMessage) -> DirectoryView {
    match m {
        DirectoryMessage::SetFilter(s) => DirectoryView { filter: if s@.len() == 0 { None } else { Some(s@) }, ..d },
        DirectoryMessage::SetOrder(o) => DirectoryView { order: o, ..d },
        DirectoryMessage::SetDropdown(show) => DirectoryView {
            set_dropdown_shown: match show {
                Some(b) => b,
                None => !d.set_dropdown_shown,
            },
            ..d
        },
        DirectoryMessage::AddGlyphsFromUnicodeBlock => DirectoryView { set_dropdown_shown: false, show_blocks: true, ..d },
        DirectoryMessage::CloseAddNewBlocks => DirectoryView { show_blocks: false, ..d },
        DirectoryMessage::SelectBlock(b) => DirectoryView { selected_block: b, ..d },
        DirectoryMessage::SubmitBlock(_) => DirectoryView { show_blocks: false, ..d },
        _ => d,
    }
}

impl Directory {
    pub fn update(&mut self, message: DirectoryMessage)
        requires
            directory_handles(message),
        ensures
            final(self)@ == directory_after(old(self)@, message),
    {
        match message {
            DirectoryMessage::SetFilter(s) => {
                self.filter = if s.as_str().is_empty() { None } else { Some(s) };
            },
            DirectoryMessage::SetOrder(order) => {
                self.order = order;
            },
            DirectoryMessage::SetDropdown(show) => {
                self.set_dropdown_shown = match show {
                    Some(b) => b,
                    None => !self.set_dropdown_shown,
                };
            },
            DirectoryMessage::AddGlyphsFromUnicodeBlock => {
                self.set_dropdown_shown = false;
                self.new_from_unicode.show = true;
            },
            DirectoryMessage::CloseAddNewBlocks => {
                self.new_from_unicode.show = false;
            },
            DirectoryMessage::SelectBlock(block) => {
                self.new_from_unicode.selected = block;
            },
            DirectoryMessage::SubmitBlock(_) => {
                self.new_from_unicode.show = false;
            },
            _ => {},
        }
    }
}

// ---------------------------------------------------------------------------
// The inspector

/// What the inspector's glyph list can be asked to do.
#[derive(Debug)]
pub enum GlyphListMessage {
    SetSortBy(SortBy),
    SetFilter(String),
    ToggleGlyphsetDropdown,
    CloseGlyphsetDropdown,
    AddGlyphSet(GlyphSet),
}

/// The inspector's glyph list: its filter, its order, the names it lists
/// (none while the filter is empty) and whether the glyph-set drop-down is
/// open.
#[derive(Debug)]
pub struct GlyphList {
    pub filter: String,
    pub sort_by: SortBy,
    pub results_dirty: bool,
    pub results: Option<Vec<String>>,
    pub show_glyphsets: bool,
}

pub struct GlyphListView {
    pub filter: Seq<char>,
    pub sort_by: SortBy,
    pub results_dirty: bool,
    pub results: Option<Seq<Seq<char>>>,
    pub show_glyphsets: bool,
}

impl View for GlyphList {
    type V = GlyphListView;

    open spec fn view(&self) -> GlyphListView {
        GlyphListView {
            filter: self.filter@,
            sort_by: self.sort_by,
            results_dirty: self.results_dirty,
            results: match self.results {
                Some(v) => Some(v@.map_values(|s: String| s@)),
                None => None,
            },
            show_glyphsets: self.show_glyphsets,
        }
    }
}

impl Default for GlyphList {
    fn default() -> (l: Self)
        ensures
            l@ == (GlyphListView {
                filter: Seq::empty(),
                sort_by: SortBy::Unicode,
                results_dirty: true,
                results: None,
                show_glyphsets: false,
            }),
    {
        GlyphList {
            filter: String::new(),
            sort_by: SortBy::Unicode,
            results_dirty: true,
            results: None,
            show_glyphsets: false,
        }
    }
}

/// The names of the font's glyphs, in order.
pub open spec fn glyph_names(glyphs: Seq<(Seq<char>, crate::font::GlyphView)>) -> Seq<Seq<char>> {
    glyphs.map_values(|e: (Seq<char>, crate::font::GlyphView)| e.0)
}

/// What the list shows for `filter`: nothing while it is empty, else every
/// glyph's name.
pub open spec fn list_results(filter: Seq<char>, glyphs: Seq<(Seq<char>, crate::font::GlyphView)>) -> Option<Seq<Seq<char>>> {
    if filter.len() == 0 {
        None
    } else {
        Some(glyph_names(glyphs))
    }
}

/// The list after `m`, before its results are brought up to date.
pub open spec fn glyph_list_after(l: GlyphListView, m: GlyphListMessage) -> GlyphListView {
    match m {
        GlyphListMessage::SetSortBy(s) => GlyphListView { sort_by: s, results_dirty: true, ..l },
        GlyphListMessage::SetFilter(f) => GlyphListView { filter: f@, results_dirty: true, ..l },
        GlyphListMessage::ToggleGlyphsetDropdown => GlyphListView { show_glyphsets: !l.show_glyphsets, ..l },
        GlyphListMessage::CloseGlyphsetDropdown => GlyphListView { show_glyphsets: false, ..l },
        GlyphListMessage::AddGlyphSet(_) => GlyphListView { show_glyphsets: false, ..l },
    }
}

impl GlyphList {
    /// The names of the glyphs the list shows for its filter.
    fn results_for(&self, font: &Font) -> (r: Option<Vec<String>>)
        ensures
            match r {
                Some(v) => list_results(self.filter@, font@.glyphs) == Some(v@.map_values(|s: String| s@)),
                None => list_results(self.filter@, font@.glyphs) is None,
            },
    {
        if self.filter.as_str().is_empty() {
            return None;
        }
        let n = glyph_map_len(&font.glyphs);
        let mut names: Vec<String> = Vec::new();
        let mut i: usize = 0;
        while i < n
            invariant
                n == font@.glyphs.len(),
                i <= n,
                names@.len() == i,
                forall|k: int| 0 <= k < i ==> (#[trigger] names@[k])@ == font@.glyphs[k].0,
            decreases n - i,
        {
            let (name, _) = glyph_map_get_index(&font.glyphs, i);
            names.push(name.clone());
            i += 1;
        }
        assert(names@.map_values(|s: String| s@) =~= glyph_names(font@.glyphs));
        Some(names)
    }

    /// Handles `message`; the glyph set to add, if any, is passed on as a
    /// project action. While the results are out of date they are worked out
    /// again.
    pub fn update(&mut self, font: &Font, message: GlyphListMessage) -> (r: Option<Action>)
        ensures
            final(self)@ == ({
                let l = glyph_list_after(old(self)@, message);
                if message is AddGlyphSet || !l.results_dirty {
                    l
                } else {
                    GlyphListView { results: list_results(l.filter, font@.glyphs), ..l }
                }
            }),
            match message {
                GlyphListMessage::AddGlyphSet(set) => r == Some(Action::AddGlyphSet(set)),
                _ => r is None,
            },
    {
        match message {
            GlyphListMessage::SetSortBy(sort_by) => {
                self.sort_by = sort_by;
                self.results_dirty = true;
            },
            GlyphListMessage::SetFilter(filter) => {
                self.filter = filter;
                self.results_dirty = true;
            },
            GlyphListMessage::ToggleGlyphsetDropdown => {
                self.show_glyphsets = !self.show_glyphsets;
            },
            GlyphListMessage::CloseGlyphsetDropdown => {
                self.show_glyphsets = false;
            },
            GlyphListMessage::AddGlyphSet(glyphset) => {
                self.show_glyphsets = false;
                return Some(Action::AddGlyphSet(glyphset));
            },
        }
        if self.results_dirty {
            self.results = self.results_for(font);
        }
        None
    }
}

/// What the inspector can be asked to do.
#[derive(Debug)]
pub enum InspectorMessage {
    SetCollapsed(bool),
    SetTab(Tab),
    Directory(GlyphListMessage),
}

/// The inspector panel: whether it is collapsed, its tab, and its glyph
/// list.
#[derive(Debug)]
pub struct Inspector {
    pub collapsed: bool,
    pub tab: Tab,
    pub directory: GlyphList,
}

impl Default for Inspector {
    fn default() -> (i: Self)
        ensures
            !i.collapsed,
            i.tab == Tab::Font,
            i.directory@ == (GlyphListView {
                filter: Seq::empty(),
                sort_by: SortBy::Unicode,
                results_dirty: true,
                results: None,
                show_glyphsets: false,
            }),
    {
        Inspector { collapsed: false, tab: Tab::Font, directory: GlyphList::default() }
    }
}

impl Inspector {
    /// Handles `message`: choosing a tab also expands the panel.
    pub fn update(&mut self, font: &Font, message: InspectorMessage) -> (r: Option<Action>)
        ensures
            match message {
                InspectorMessage::SetTab(tab) => {
                    &&& final(self).tab == tab
                    &&& !final(self).collapsed
                    &&& final(self).directory@ == old(self).directory@
                    &&& r is None
                },
                InspectorMessage::SetCollapsed(c) => {
                    &&& final(self).collapsed == c
                    &&& final(self).tab == old(self).tab
                    &&& final(self).directory@ == old(self).directory@
                    &&& r is None
                },
                InspectorMessage::Directory(m) => {
                    &&& final(self).collapsed == old(self).collapsed
                    &&& final(self).tab == old(self).tab
                    &&& final(self).directory@ == ({
                        let l = glyph_list_after(old(self).directory@, m);
                        if m is AddGlyphSet || !l.results_dirty {
                            l
                        } else {
                            GlyphListView { results: list_results(l.filter, font@.glyphs), ..l }
                        }
                    })
                    &&& match m {
                        GlyphListMessage::AddGlyphSet(set) => r == Some(Action::AddGlyphSet(set)),
                        _ => r is None,
                    }
                },
            },
    {
        match message {
            InspectorMessage::SetTab(tab) => {
                self.tab = tab;
                self.collapsed = false;
                None
            },
            InspectorMessage::SetCollapsed(collapsed) => {
                self.collapsed = collapsed;
                None
            },
            InspectorMessage::Directory(message) => self.directory.update(font, message),
        }
    }
}

// ---------------------------------------------------------------------------
// The settings page

/// The pages of the settings view.
#[derive(Debug, Clone, Copy, PartialEq, Eq, Structural)]
pub enum SettingsPage {
    Appearance,
    About,
}

/// What the settings view can be asked to do itself.
#[derive(Debug, Clone, Copy, PartialEq, Eq, Structural)]
pub enum PrivateMessage {
    SetPage(SettingsPage),
    /// Open the colour picker for a token, or close it.
    ShowPicker(Option<EditorToken>),
}

/// The settings view: its page and the open colour picker.
#[derive(Debug, Clone, Copy, PartialEq, Eq, Structural)]
pub struct SettingsView {
    pub page: SettingsPage,
    pub opened_picker: Option<EditorToken>,
}

impl Default for SettingsView {
    fn default() -> (s: Self)
        ensures
            s == (SettingsView { page: SettingsPage::Appearance, opened_picker: None }),
    {
        SettingsView { page: SettingsPage::Appearance, opened_picker: None }
    }
}

impl SettingsView {
    pub fn update(&mut self, message: PrivateMessage)
        ensures
            *final(self) == match message {
                PrivateMessage::SetPage(page) => SettingsView { page, ..*old(self) },
                PrivateMessage::ShowPicker(token) => SettingsView { opened_picker: token, ..*old(self) },
            },
    {
        match message {
            PrivateMessage::SetPage(page) => self.page = page,
            PrivateMessage::ShowPicker(token) => self.opened_picker = token,
        }
    }
}

/// Icons from the Bootstrap icon set (`Bi`), named as in that set.
#[derive(Debug, Clone, Copy, PartialEq, Eq, Structural)]
pub enum Icon {
    BiArrowClockwise,
    BiArrowCounterclockwise,
    BiArrowDown,
    BiArrowLeft,
    BiArrowRight,
    BiArrowUp,
    BiArrowsMove,
    BiBorderInner,
    BiClipboard,
    BiCopy,
    BiEraser,
    BiFileArrowDown,
    BiFloppy,
    BiFolder2Open,
    BiGearWideConnected,
    BiPaintBucket,
    BiPen,
    BiPlusLg,
    BiSearch,
    BiSlashLg,
    BiSquare,
    BiZoomIn,
    BiZoomOut,
}

impl Icon {
    /// The icon's name in the Bootstrap icon set, which is also the name of
    /// its SVG file there.
    pub fn svg_name(self) -> (s: &'static str)
        ensures
            s@ == match self {
                Icon::BiArrowClockwise => "arrow-clockwise"@,
                Icon::BiArrowCounterclockwise => "arrow-counterclockwise"@,
                Icon::BiArrowDown => "arrow-down"@,
                Icon::BiArrowLeft => "arrow-left"@,
                Icon::BiArrowRight => "arrow-right"@,
                Icon::BiArrowUp => "arrow-up"@,
                Icon::BiArrowsMove => "arrows-move"@,
                Icon::BiBorderInner => "border-inner"@,
                Icon::BiClipboard => "clipboard"@,
                Icon::BiCopy => "copy"@,
                Icon::BiEraser => "eraser"@,
                Icon::BiFileArrowDown => "file-arrow-down"@,
                Icon::BiFloppy => "floppy"@,
                Icon::BiFolder2Open => "folder2-open"@,
                Icon::BiGearWideConnected => "gear-wide-connected"@,
                Icon::BiPaintBucket => "paint-bucket"@,
                Icon::BiPen => "pen"@,
                Icon::BiPlusLg => "plus-lg"@,
                Icon::BiSearch => "search"@,
                Icon::BiSlashLg => "slash-lg"@,
                Icon::BiSquare => "square"@,
                Icon::BiZoomIn => "zoom-in"@,
                Icon::BiZoomOut => "zoom-out"@,
            },
    {
        match self {
            Icon::BiArrowClockwise => "arrow-clockwise",
            Icon::BiArrowCounterclockwise => "arrow-counterclockwise",
            Icon::BiArrowDown => "arrow-down",
            Icon::BiArrowLeft => "arrow-left",
            Icon::BiArrowRight => "arrow-right",
            Icon::BiArrowUp => "arrow-up",
            Icon::BiArrowsMove => "arrows-move",
            Icon::BiBorderInner => "border-inner",
            Icon::BiClipboard => "clipboard",
            Icon::BiCopy => "copy",
            Icon::BiEraser => "eraser",
            Icon::BiFileArrowDown => "file-arrow-down",
            Icon::BiFloppy => "floppy",
            Icon::BiFolder2Open => "folder2-open",
            Icon::BiGearWideConnected => "gear-wide-connected",
            Icon::BiPaintBucket => "paint-bucket",
            Icon::BiPen => "pen",
            Icon::BiPlusLg => "plus-lg",
            Icon::BiSearch => "search",
            Icon::BiSlashLg => "slash-lg",
            Icon::BiSquare => "square",
            Icon::BiZoomIn => "zoom-in",
            Icon::BiZoomOut => "zoom-out",
        }
    }
}

// ---------------------------------------------------------------------------
// The top bar

/// What the top bar can be asked to do.
#[derive(Debug, Clone, Copy, PartialEq, Eq, Structural)]
pub enum TopbarMessage {
    Open,
    Save,
    SaveAs,
    Export(Exporter),
    ToggleDropdown,
    CloseDropdown,
}

/// What the caller of `Topbar::update` has left to do.
#[derive(Debug)]
pub enum TopbarEffect {
    Done,
    /// Ask for a file to open, then import it.
    PickFileToOpen,
    /// Carry out this project action.
    Project(Action),
    /// Ask where to save the project, suggesting this file name.
    PickFileToSave(String),
    /// Ask for a file to export to in this format.
    PickFileToExport(Exporter),
}

/// The top bar: whether its export drop-down is open.
#[derive(Debug, Clone, Copy, PartialEq, Eq, Structural)]
pub struct Topbar {
    pub export_shown: bool,
}

/// The file name suggested when saving a project: where it is saved, or a
/// default name.
pub open spec fn suggested_name(path: Option<Seq<char>>) -> Seq<char> {
    match path {
        Some(p) => p,
        None => "untitles.pxfproj"@,
    }
}

impl Topbar {
    /// Handles `message`. Saving a project that has a file writes it there;
    /// otherwise it asks where to save.
    pub fn update(&mut self, project: &Project, message: TopbarMessage) -> (r: TopbarEffect)
        ensures
            match message {
                TopbarMessage::ToggleDropdown => final(self).export_shown == !old(self).export_shown && r is Done,
                TopbarMessage::CloseDropdown => !final(self).export_shown && r is Done,
                TopbarMessage::Open => *final(self) == *old(self) && r is PickFileToOpen,
                TopbarMessage::Export(e) => *final(self) == *old(self) && r == TopbarEffect::PickFileToExport(e),
                TopbarMessage::Save => *final(self) == *old(self) && (if project@.path is Some {
                    r matches TopbarEffect::Project(Action::ExportPath)
                } else {
                    r matches TopbarEffect::PickFileToSave(n) && n@ == suggested_name(project@.path)
                }),
                TopbarMessage::SaveAs => *final(self) == *old(self) && (r matches TopbarEffect::PickFileToSave(n)
                    && n@ == suggested_name(project@.path)),
            },
    {
        match message {
            TopbarMessage::Open => TopbarEffect::PickFileToOpen,
            TopbarMessage::Save => {
                if project.path().is_some() {
                    TopbarEffect::Project(Action::ExportPath)
                } else {
                    Self::save_as(project)
                }
            },
            TopbarMessage::SaveAs => Self::save_as(project),
            TopbarMessage::Export(exporter) => TopbarEffect::PickFileToExport(exporter),
            TopbarMessage::ToggleDropdown => {
                self.export_shown = !self.export_shown;
                TopbarEffect::Done
            },
            TopbarMessage::CloseDropdown => {
                self.export_shown = false;
                TopbarEffect::Done
            },
        }
    }

    fn save_as(project: &Project) -> (r: TopbarEffect)
        ensures
            r matches TopbarEffect::PickFileToSave(n) && n@ == suggested_name(project@.path),
    {
        let name = match project.path() {
            Some(p) => p.clone(),
            None => "untitles.pxfproj".to_owned(),
        };
        TopbarEffect::PickFileToSave(name)
    }
}

// ---------------------------------------------------------------------------
// The window

/// The window's title: a star while there are unsaved changes, the project's
/// file name or `New Project`, and the program's name.
pub open spec fn window_title(file_name: Option<Seq<char>>, dirty: bool) -> Seq<char> {
    (if dirty { "*"@ } else { ""@ }) + match file_name {
        Some(n) => n,
        None => "New Project"@,
    } + " - PixFont Studio"@
}

/// The window's title for a project saved under `file_name`, if any.
pub fn title(file_name: Option<&str>, dirty: bool) -> (t: String)
    ensures
        t@ == window_title(
            match file_name {
                Some(n) => Some(n@),
                None => None,
            },
            dirty,
        ),
{
    let mut t = String::new();
    if dirty {
        t.append("*");
    }
    match file_name {
        Some(n) => t.append(n),
        None => t.append("New Project"),
    }
    t.append(" - PixFont Studio");
    proof {
        reveal_strlit("*");
        reveal_strlit("");
    }
    t
}

/// The colour scheme the desktop prefers, if it says.
#[derive(Debug, Clone, Copy, PartialEq, Eq, Structural)]
pub enum SystemMode {
    Unknown,
    Light,
    Dark,
}

/// Whether the studio is drawn light or dark: as the theme says, or, for
/// the automatic theme, as the desktop prefers, light where it does not say.
pub fn theme_is_dark(theme: Theme, system: SystemMode) -> (dark: bool)
    ensures
        dark == match theme {
            Theme::Auto => system == SystemMode::Dark,
            Theme::Light => false,
            Theme::Dark => true,
        },
{
    match theme {
        Theme::Auto => match system {
            SystemMode::Dark => true,
            _ => false,
        },
        Theme::Light => false,
        Theme::Dark => true,
    }
}

/// The pointer's look over the glyph editor.
#[derive(Debug, Clone, Copy, PartialEq, Eq, Structural)]
pub enum Interaction {
    Crosshair,
    Grab,
    Grabbing,
}

/// The pointer's look over the glyph editor with `tool` chosen: a
/// crosshair for drawing, an open hand for panning and a closed one while a
/// pan is in progress.
pub fn interaction(tool: Tool, state: &ToolState) -> (i: Interaction)
    ensures
        i == match tool {
            Tool::Pan => if *state is Pan { Interaction::Grabbing } else { Interaction::Grab },
            _ => Interaction::Crosshair,
        },
{
    match tool {
        Tool::Pan => match state {
            ToolState::Pan => Interaction::Grabbing,
            _ => Interaction::Grab,
        },
        _ => Interaction::Crosshair,
    }
}

} // verus!
