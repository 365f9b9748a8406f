use board_view::{Channel, Color, ConfigurationError, ViewSettings, BORDER_INSET, CHANNEL_MAX};

fn rgba(red: u16, green: u16, blue: u16, alpha: u16) -> Color {
    Color::new(red, green, blue, alpha).unwrap()
}

#[test]
fn color_keeps_its_channels() {
    assert_eq!(rgba(290, 390, 540, 1000).channels(), (290, 390, 540, 1000));
    assert_eq!(rgba(0, 0, 0, 0).channels(), (0, 0, 0, 0));
    assert_eq!(rgba(1000, 1000, 1000, 1000).channels(), (1000, 1000, 1000, 1000));
}

#[test]
fn channel_max_is_a_thousand() {
    assert_eq!(CHANNEL_MAX, 1000);
}

#[test]
fn color_rejects_red_out_of_range() {
    assert_eq!(
        Color::new(1001, 0, 0, 0),
        Err(ConfigurationError { channel: Channel::Red, value: 1001 })
    );
}

#[test]
fn color_rejects_green_out_of_range() {
    assert_eq!(
        Color::new(1000, 2000, 0, 0),
        Err(ConfigurationError { channel: Channel::Green, value: 2000 })
    );
}

#[test]
fn color_rejects_blue_out_of_range() {
    assert_eq!(
        Color::new(0, 0, u16::MAX, 0),
        Err(ConfigurationError { channel: Channel::Blue, value: u16::MAX })
    );
}

#[test]
fn color_rejects_alpha_out_of_range() {
    assert_eq!(
        Color::new(0, 0, 0, 1001),
        Err(ConfigurationError { channel: Channel::Alpha, value: 1001 })
    );
}

#[test]
fn color_names_the_first_channel_out_of_range() {
    assert_eq!(
        Color::new(5, 3000, 4000, 5000),
        Err(ConfigurationError { channel: Channel::Green, value: 3000 })
    );
    assert_eq!(
        Color::new(9999, 3000, 4000, 5000),
        Err(ConfigurationError { channel: Channel::Red, value: 9999 })
    );
}

#[test]
fn default_settings_have_the_stock_sizes() {
    let settings = ViewSettings::default();
    assert_eq!(settings.board_size, 25600);
    assert_eq!(settings.padding, 7680);
    assert_eq!(BORDER_INSET, 80);
}

#[test]
fn default_settings_have_the_stock_colors() {
    let settings = ViewSettings::default();
    assert_eq!(settings.background_color, rgba(340, 310, 310, 1000));
    assert_eq!(settings.border_color, rgba(150, 120, 100, 1000));
    assert_eq!(settings.white_color, rgba(290, 390, 540, 1000));
    assert_eq!(settings.black_color, rgba(820, 870, 960, 1000));
    assert_eq!(settings.move_color, rgba(580, 590, 630, 1000));
}

#[test]
fn settings_can_be_overridden_field_by_field() {
    let settings = ViewSettings { board_size: 100, move_color: rgba(1, 2, 3, 4), ..ViewSettings::default() };
    assert_eq!(settings.board_size, 100);
    assert_eq!(settings.padding, 7680);
    assert_eq!(settings.move_color.channels(), (1, 2, 3, 4));
    assert_eq!(settings.white_color, ViewSettings::default().white_color);
}

#[test]
fn nominal_layout_puts_the_board_at_the_padding() {
    let layout = ViewSettings::default().nominal_layout();
    assert_eq!(layout.board_size, 25600);
    assert_eq!(layout.x_offset, 7680);
    assert_eq!(layout.y_offset, 0);
    let settings = ViewSettings { board_size: 12, padding: 34, ..ViewSettings::default() };
    assert_eq!(
        settings.nominal_layout(),
        board_view::LayoutRect { board_size: 12, x_offset: 34, y_offset: 0 }
    );
}
