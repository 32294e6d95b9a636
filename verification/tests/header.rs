use iced_navigation::color::Color;
use iced_navigation::components::header::{
    BackButton, ButtonSettings, Header, HeaderButton, HeaderSettings, HeaderTitle, Title,
    TitleSettings,
};
use iced_navigation::length::Length;
use iced_navigation::page::{PageEntry, PageKey, PageRegistry};

#[test]
fn header_settings_default() {
    let settings = HeaderSettings::default();
    assert!(settings.show_header);
    assert_eq!(settings.height, Length::Fixed(50));
    assert_eq!(settings.background_color, None);
    assert_eq!(
        settings.button_settings,
        ButtonSettings {
            background_color: None,
            height: Length::Fixed(30),
            width: Length::Fixed(40),
            icon_color: None,
            icon_size: 20,
        }
    );
    assert_eq!(settings.title_settings, TitleSettings { title_color: None, title_size: 18 });
    assert_eq!(ButtonSettings::default(), settings.button_settings);
    assert_eq!(TitleSettings::default(), settings.title_settings);
}

#[test]
fn default_chrome_elements() {
    assert_eq!(Title::new(), Title);
    assert_eq!(BackButton::new(), BackButton);
}

#[test]
fn fresh_header_shows_title_and_back_button() {
    let header = Header::new("Inbox".to_string());
    assert_eq!(header.title(), "Inbox");
    assert!(header.is_shown());
    assert_eq!(header.render_back_button(), Some(HeaderButton::Back));
    let layout = header.view();
    assert_eq!(layout.left, Some(HeaderButton::Back));
    assert_eq!(layout.right, None);
    assert_eq!(layout.title_widget, HeaderTitle::Plain);
    assert_eq!(layout.settings, HeaderSettings::default());
}

#[test]
fn hidden_left_button_is_not_rendered() {
    let mut header = Header::new("Inbox".to_string());
    header.hide_left_button(true);
    assert_eq!(header.render_back_button(), None);
    assert_eq!(header.view().left, None);
    header.hide_left_button(false);
    assert_eq!(header.render_back_button(), Some(HeaderButton::Back));
}

#[test]
fn header_takes_what_is_set_on_it() {
    let mut header = Header::new("Inbox".to_string());
    let red = Color { r: 255, g: 0, b: 0, a: 255 };
    let given = HeaderSettings {
        show_header: false,
        background_color: Some(red),
        ..HeaderSettings::default()
    };
    header.set_settings(Some(given));
    header.set_back_button(HeaderButton::Drawer);
    header.set_right_button(HeaderButton::Custom);
    header.set_title_widget(HeaderTitle::Custom);
    assert!(!header.is_shown());
    let layout = header.view();
    assert_eq!(layout.left, Some(HeaderButton::Drawer));
    assert_eq!(layout.right, Some(HeaderButton::Custom));
    assert_eq!(layout.title_widget, HeaderTitle::Custom);
    assert_eq!(layout.settings, given);
    header.set_settings(None);
    assert_eq!(header.view().settings, HeaderSettings::default());
    assert_eq!(header.view().left, Some(HeaderButton::Drawer));
}

#[test]
fn view_with_overrides_the_left_button_only() {
    let mut header = Header::new("Inbox".to_string());
    header.hide_left_button(true);
    header.set_right_button(HeaderButton::Custom);
    assert_eq!(header.view_with(false).left, Some(HeaderButton::Back));
    assert_eq!(header.view_with(true).left, None);
    assert_eq!(header.view_with(true).right, Some(HeaderButton::Custom));
}

#[test]
fn registry_keeps_the_first_entry() {
    let mut registry: PageRegistry<&'static str> = PageRegistry::new();
    assert!(!registry.contains(PageKey(4)));
    assert!(registry.get_or_create(PageKey(4), PageEntry { id: 4, chrome: Some("first") }));
    assert!(registry.contains(PageKey(4)));
    assert!(!registry.get_or_create(PageKey(4), PageEntry { id: 4, chrome: Some("second") }));
    assert_eq!(registry.lookup(PageKey(4)).chrome, Some("first"));
    assert_eq!(registry.lookup(PageKey(4)).id, 4);
    assert!(registry.get_or_create(PageKey(5), PageEntry { id: 5, chrome: None }));
    assert!(registry.contains(PageKey(4)) && registry.contains(PageKey(5)));
    assert!(!registry.contains(PageKey(6)));
}
