use pixfont::export::Exporter;
use pixfont::sets::GlyphSet;
use pixfont::studio::listing::directory_listing;
use pixfont::studio::project::{Action, Project};
use pixfont::studio::tools::{Tool, ToolState};
use pixfont::studio::ui::{
    interaction, theme_is_dark, title, Directory, DirectoryMessage, DirectoryOrder, GlyphList, GlyphListMessage,
    Icon, Inspector, InspectorMessage, Interaction, PrivateMessage, SettingsPage, SettingsView, SortBy,
    SystemMode, Tab, Theme, Topbar, TopbarEffect, TopbarMessage,
};
use pixfont::ucd::Block;
use pixfont::{CodepointMapping, Font, Glyph};

fn font() -> Font {
    let mut font = Font::default();
    for name in ["b", "a", "C"] {
        font.glyphs.insert(name.to_string(), Glyph::default());
    }
    font.mappings.insert(66, CodepointMapping::new("b"));
    let mut a = CodepointMapping::new("a");
    a.alternate.insert("x".to_string(), "zz".to_string());
    a.alternate.insert("y".to_string(), "C".to_string());
    font.mappings.insert(65, a);
    font
}

#[test]
fn directory_lists_in_each_order() {
    let f = font();
    assert_eq!(directory_listing(&f, DirectoryOrder::Unordered), vec!["b", "a", "C"]);
    assert_eq!(directory_listing(&f, DirectoryOrder::Name), vec!["C", "a", "b"]);
    assert_eq!(directory_listing(&f, DirectoryOrder::Unicode), vec!["a", "C", "b"]);
    let d = Directory::default();
    assert_eq!(d.order, DirectoryOrder::Unicode);
    assert_eq!(d.listing(&f), vec!["a", "C", "b"]);
}

#[test]
fn directory_messages_change_its_state() {
    let mut d = Directory::default();
    assert_eq!(d.new_from_unicode.selected.name, "Basic Latin");
    d.update(DirectoryMessage::SetFilter("q".to_string()));
    assert_eq!(d.filter.as_deref(), Some("q"));
    d.update(DirectoryMessage::SetFilter(String::new()));
    assert!(d.filter.is_none());
    d.update(DirectoryMessage::SetDropdown(None));
    assert!(d.set_dropdown_shown);
    d.update(DirectoryMessage::AddGlyphsFromUnicodeBlock);
    assert!(!d.set_dropdown_shown && d.new_from_unicode.show);
    d.update(DirectoryMessage::SelectBlock(Block::of(0x100).unwrap()));
    assert_eq!(d.new_from_unicode.selected.name, "Latin Extended-A");
    d.update(DirectoryMessage::SubmitBlock(Block::of(0x100).unwrap()));
    assert!(!d.new_from_unicode.show);
    d.update(DirectoryMessage::SetOrder(DirectoryOrder::Name));
    assert_eq!(d.order, DirectoryOrder::Name);
}

#[test]
fn glyph_list_shows_results_only_with_a_filter() {
    let f = font();
    let mut list = GlyphList::default();
    assert!(list.update(&f, GlyphListMessage::SetSortBy(SortBy::Name)).is_none());
    assert!(list.results.is_none());
    list.update(&f, GlyphListMessage::SetFilter("a".to_string()));
    assert_eq!(list.results.clone().unwrap(), vec!["b", "a", "C"]);
    list.update(&f, GlyphListMessage::ToggleGlyphsetDropdown);
    assert!(list.show_glyphsets);
    match list.update(&f, GlyphListMessage::AddGlyphSet(GlyphSet::Numbers)) {
        Some(Action::AddGlyphSet(GlyphSet::Numbers)) => {},
        _ => panic!("expected an action"),
    }
    assert!(!list.show_glyphsets);
}

#[test]
fn inspector_tabs_expand_it() {
    let f = font();
    let mut inspector = Inspector::default();
    assert_eq!(inspector.tab, Tab::Font);
    inspector.update(&f, InspectorMessage::SetCollapsed(true));
    assert!(inspector.collapsed);
    inspector.update(&f, InspectorMessage::SetTab(Tab::Glyph));
    assert!(!inspector.collapsed);
    assert_eq!(inspector.tab, Tab::Glyph);
    inspector.update(&f, InspectorMessage::Directory(GlyphListMessage::CloseGlyphsetDropdown));
    assert!(!inspector.directory.show_glyphsets);
}

#[test]
fn topbar_saves_where_the_project_is() {
    let mut topbar = Topbar { export_shown: false };
    let mut project = Project::default();
    match topbar.update(&project, TopbarMessage::Save) {
        TopbarEffect::PickFileToSave(name) => assert_eq!(name, "untitles.pxfproj"),
        _ => panic!("expected a file dialog"),
    }
    project.exported("x.pxfproj".to_string(), Exporter::Project);
    assert!(matches!(topbar.update(&project, TopbarMessage::Save), TopbarEffect::Project(Action::ExportPath)));
    match topbar.update(&project, TopbarMessage::SaveAs) {
        TopbarEffect::PickFileToSave(name) => assert_eq!(name, "x.pxfproj"),
        _ => panic!("expected a file dialog"),
    }
    topbar.update(&project, TopbarMessage::ToggleDropdown);
    assert!(topbar.export_shown);
    topbar.update(&project, TopbarMessage::CloseDropdown);
    assert!(!topbar.export_shown);
    assert!(matches!(topbar.update(&project, TopbarMessage::Open), TopbarEffect::PickFileToOpen));
}

#[test]
fn window_title_marks_unsaved_changes() {
    assert_eq!(title(None, true), "*New Project - PixFont Studio");
    assert_eq!(title(Some("a.pxfproj"), false), "a.pxfproj - PixFont Studio");
}

#[test]
fn themes_and_names() {
    assert_eq!(Theme::default(), Theme::Auto);
    assert_eq!(Theme::all(), vec![Theme::Auto, Theme::Dark, Theme::Light]);
    assert_eq!(Theme::Auto.name(), "System");
    assert!(theme_is_dark(Theme::Auto, SystemMode::Dark));
    assert!(!theme_is_dark(Theme::Auto, SystemMode::Unknown));
    assert!(theme_is_dark(Theme::Dark, SystemMode::Light));
    assert_eq!(SortBy::default(), SortBy::Unicode);
    assert_eq!(SortBy::all().len(), 3);
    assert_eq!(SortBy::Unsorted.name(), "None");
    assert_eq!(DirectoryOrder::Unordered.name(), "None");
    assert_eq!(Icon::BiFolder2Open.svg_name(), "folder2-open");
}

#[test]
fn settings_view_pages_and_pickers() {
    let mut view = SettingsView::default();
    assert_eq!(view.page, SettingsPage::Appearance);
    view.update(PrivateMessage::SetPage(SettingsPage::About));
    view.update(PrivateMessage::ShowPicker(Some(pixfont::studio::ui::EditorToken::Glyph)));
    assert_eq!(view.page, SettingsPage::About);
    assert_eq!(view.opened_picker, Some(pixfont::studio::ui::EditorToken::Glyph));
}

#[test]
fn pointer_looks() {
    assert_eq!(interaction(Tool::Pen, &ToolState::Idle), Interaction::Crosshair);
    assert_eq!(interaction(Tool::Pan, &ToolState::Idle), Interaction::Grab);
    assert_eq!(interaction(Tool::Pan, &ToolState::Pan), Interaction::Grabbing);
}
