use material_yew::chip::ChipProps;
use material_yew::{
    button, checkbox, circular_progress, color, dialog, divider, fab, field, focus, icon_button,
    linear_progress, list_item, menu, menu_item, progress, radio, ripple, select, slider,
    sub_menu, switch, tab, tabs, textfield,
};
use material_yew::{
    AttributeList, ButtonVariants, ChipKind, FabSize, FabStyle, FabVariant, IconButtonVariants,
};

fn list(a: &AttributeList) -> Vec<(&'static str, String)> {
    a.items.iter().map(|x| (x.name, x.value.clone())).collect()
}

fn expect(pairs: &[(&'static str, &str)]) -> Vec<(&'static str, String)> {
    pairs.iter().map(|(n, v)| (*n, v.to_string())).collect()
}

fn s(v: &str) -> String {
    v.to_string()
}

fn button_props(variant: ButtonVariants) -> button::Props {
    button::Props {
        disabled: false,
        soft_disabled: false,
        href: String::new(),
        target: String::new(),
        download: String::new(),
        trailing_icon: false,
        kind: s("submit"),
        value: String::new(),
        name: String::new(),
        form: String::new(),
        variant,
        id: None,
        style: None,
    }
}

#[test]
fn button_tag_names() {
    assert_eq!(ButtonVariants::Elevated.as_tag_name(), "md-elevated-button");
    assert_eq!(ButtonVariants::Filled.as_tag_name(), "md-filled-button");
    assert_eq!(ButtonVariants::FilledTonal.as_tag_name(), "md-filled-tonal-button");
    assert_eq!(ButtonVariants::Outlined.as_tag_name(), "md-outlined-button");
    assert_eq!(ButtonVariants::Text.as_tag_name(), "md-text-button");
    assert_eq!(button_props(ButtonVariants::Text).tag_name(), "md-text-button");
}

#[test]
fn button_renders_with_type() {
    let mut p = button_props(ButtonVariants::Filled);
    p.kind = s("button");
    p.form = s("my-form");
    assert_eq!(
        list(&p.attributes()),
        expect(&[
            ("href", ""),
            ("target", ""),
            ("download", ""),
            ("type", "button"),
            ("value", ""),
            ("name", ""),
            ("form", "my-form"),
        ])
    );
}

#[test]
fn button_renders_with_soft_disabled_and_download() {
    let mut p = button_props(ButtonVariants::Filled);
    p.soft_disabled = true;
    p.download = s("file.txt");
    p.disabled = true;
    p.trailing_icon = true;
    assert_eq!(
        list(&p.attributes()),
        expect(&[
            ("disabled", "disabled"),
            ("soft-disabled", ""),
            ("href", ""),
            ("target", ""),
            ("download", "file.txt"),
            ("trailing-icon", ""),
            ("type", "submit"),
            ("value", ""),
            ("name", ""),
            ("form", ""),
        ])
    );
}

#[test]
fn button_renders_with_custom_style_and_id() {
    let mut p = button_props(ButtonVariants::Filled);
    p.id = Some(s("custom-id"));
    p.style = Some(s("color: red;"));
    let got = list(&p.attributes());
    assert_eq!(got[got.len() - 2], ("id", s("custom-id")));
    assert_eq!(got[got.len() - 1], ("style", s("color: red;")));
}

#[test]
fn checkbox_renders_correctly() {
    let p = checkbox::Props {
        checked: true,
        disabled: true,
        indeterminate: false,
        required: false,
        value: s("test-value"),
        name: s("test-name"),
        id: None,
        style: None,
    };
    assert_eq!(
        list(&p.attributes()),
        expect(&[
            ("checked", ""),
            ("disabled", "disabled"),
            ("value", "test-value"),
            ("name", "test-name"),
        ])
    );
}

#[test]
fn checkbox_renders_with_custom_style_and_id() {
    let p = checkbox::Props {
        checked: false,
        disabled: false,
        indeterminate: true,
        required: true,
        value: s("on"),
        name: String::new(),
        id: Some(s("custom-id")),
        style: Some(s("color: blue;")),
    };
    assert_eq!(
        list(&p.attributes()),
        expect(&[
            ("indeterminate", ""),
            ("required", "required"),
            ("value", "on"),
            ("name", ""),
            ("id", "custom-id"),
            ("style", "color: blue;"),
        ])
    );
}

fn chip(kind: ChipKind) -> ChipProps {
    ChipProps {
        kind,
        elevated: false,
        href: String::new(),
        target: String::new(),
        download: String::new(),
        disabled: false,
        always_focusable: false,
        selected: false,
        removable: false,
        avatar: false,
        id: None,
        style: None,
    }
}

#[test]
fn chip_renders_with_download() {
    let mut p = chip(ChipKind::Assist);
    p.download = s("file.txt");
    assert_eq!(p.tag_name(), "md-assist-chip");
    assert_eq!(
        list(&p.attributes()),
        expect(&[("href", ""), ("target", ""), ("download", "file.txt")])
    );
}

#[test]
fn chip_renders_with_custom_style_and_id() {
    let mut p = chip(ChipKind::Suggestion);
    p.id = Some(s("custom-id"));
    p.style = Some(s("color: green;"));
    p.elevated = true;
    assert_eq!(p.tag_name(), "md-suggestion-chip");
    assert_eq!(
        list(&p.attributes()),
        expect(&[
            ("elevated", ""),
            ("href", ""),
            ("target", ""),
            ("download", ""),
            ("id", "custom-id"),
            ("style", "color: green;"),
        ])
    );
}

#[test]
fn chip_renders_filter_variant_with_selected_and_removable() {
    let mut p = chip(ChipKind::Filter);
    p.selected = true;
    p.removable = true;
    p.disabled = true;
    p.always_focusable = true;
    assert_eq!(p.tag_name(), "md-filter-chip");
    assert_eq!(
        list(&p.attributes()),
        expect(&[
            ("href", ""),
            ("target", ""),
            ("download", ""),
            ("disabled", "disabled"),
            ("always-focusable", ""),
            ("selected", "selected"),
            ("removable", ""),
        ])
    );
}

#[test]
fn chip_renders_input_variant_with_avatar() {
    let mut p = chip(ChipKind::Input);
    p.avatar = true;
    assert_eq!(p.tag_name(), "md-input-chip");
    assert_eq!(
        list(&p.attributes()),
        expect(&[("href", ""), ("target", ""), ("download", ""), ("avatar", "")])
    );
}

#[test]
fn circular_progress_renders_with_numbers() {
    let p = circular_progress::Props {
        value: s("0.5"),
        max: s("2"),
        indeterminate: true,
        four_color: true,
    };
    assert_eq!(
        list(&p.attributes()),
        expect(&[("value", "0.5"), ("max", "2"), ("indeterminate", ""), ("four-color", "")])
    );
}

#[test]
fn color_renders_value_and_disabled() {
    let p = color::Props { value: s("#ff0000"), disabled: true };
    assert_eq!(
        list(&p.attributes()),
        expect(&[("value", "#ff0000"), ("disabled", "disabled")])
    );
}

#[test]
fn dialog_renders_type_and_no_focus_trap() {
    let p = dialog::Props {
        open: false,
        quick: false,
        return_value: String::new(),
        kind: s("alert"),
        no_focus_trap: true,
    };
    assert_eq!(
        list(&p.attributes()),
        expect(&[("returnValue", ""), ("type", "alert"), ("no-focus-trap", "")])
    );
    let q = dialog::Props {
        open: true,
        quick: true,
        return_value: s("ok"),
        kind: String::new(),
        no_focus_trap: false,
    };
    assert_eq!(
        list(&q.attributes()),
        expect(&[("open", "open"), ("quick", ""), ("returnValue", "ok"), ("type", "")])
    );
}

#[test]
fn divider_renders_with_insets() {
    let p = divider::Props { inset_start: true, inset_end: true, inset: true, id: None, style: None };
    assert_eq!(
        list(&p.attributes()),
        expect(&[("inset", ""), ("inset-start", ""), ("inset-end", "")])
    );
}

#[test]
fn divider_renders_with_custom_style_and_id() {
    let p = divider::Props {
        inset_start: false,
        inset_end: false,
        inset: false,
        id: Some(s("custom-id")),
        style: Some(s("opacity: 0.5;")),
    };
    assert_eq!(
        list(&p.attributes()),
        expect(&[("id", "custom-id"), ("style", "opacity: 0.5;")])
    );
}

fn fab_props() -> fab::Props {
    fab::Props {
        variant: FabVariant::default(),
        size: FabSize::default(),
        label: String::new(),
        lowered: false,
        fab_style: FabStyle::Standard,
        disabled: false,
        id: None,
        style: None,
    }
}

#[test]
fn fab_renders_with_enums() {
    let mut p = fab_props();
    p.variant = FabVariant::Primary;
    p.size = FabSize::Large;
    assert_eq!(
        list(&p.attributes()),
        expect(&[("variant", "primary"), ("size", "large"), ("label", "")])
    );
}

#[test]
fn fab_defaults_and_names() {
    let p = fab_props();
    assert_eq!(p.tag_name(), "md-fab");
    assert_eq!(FabStyle::Branded.as_tag_name(), "md-branded-fab");
    assert_eq!(
        list(&p.attributes()),
        expect(&[("variant", "surface"), ("size", "medium"), ("label", "")])
    );
    assert_eq!(FabVariant::Secondary.as_str(), "secondary");
    assert_eq!(FabVariant::Tertiary.as_str(), "tertiary");
    assert_eq!(FabSize::Small.as_str(), "small");
}

#[test]
fn fab_renders_with_custom_style_and_id() {
    let mut p = fab_props();
    p.id = Some(s("custom-id"));
    p.style = Some(s("color: purple;"));
    p.lowered = true;
    p.label = s("Add");
    assert_eq!(
        list(&p.attributes()),
        expect(&[
            ("variant", "surface"),
            ("size", "medium"),
            ("label", "Add"),
            ("lowered", ""),
            ("id", "custom-id"),
            ("style", "color: purple;"),
        ])
    );
}

#[test]
fn fab_renders_as_disabled() {
    let mut p = fab_props();
    p.disabled = true;
    assert!(list(&p.attributes()).contains(&("disabled", s("disabled"))));
}

#[test]
fn field_and_focus_render() {
    let f = field::Props { label: s("Name"), value: s("Ada"), disabled: true };
    assert_eq!(
        list(&f.attributes()),
        expect(&[("label", "Name"), ("value", "Ada"), ("disabled", "disabled")])
    );
    let g = focus::Props { disabled: false, id: Some(s("f")), style: None };
    assert_eq!(list(&g.attributes()), expect(&[("id", "f")]));
}

#[test]
fn icon_button_renders_every_setting() {
    let p = icon_button::Props {
        disabled: true,
        flip_icon_in_rtl: true,
        href: s("/home"),
        target: s("_blank"),
        aria_label_selected: s("On"),
        toggle: true,
        selected: true,
        kind: s("button"),
        value: s("v"),
        name: s("n"),
        form: s("f"),
        variant: IconButtonVariants::Outlined,
        id: Some(s("i")),
        style: Some(s("st")),
    };
    assert_eq!(p.tag_name(), "md-outlined-icon-button");
    assert_eq!(IconButtonVariants::Standard.as_tag_name(), "md-icon-button");
    assert_eq!(IconButtonVariants::Filled.as_tag_name(), "md-filled-icon-button");
    assert_eq!(IconButtonVariants::FilledTonal.as_tag_name(), "md-filled-tonal-icon-button");
    assert_eq!(
        list(&p.attributes()),
        expect(&[
            ("disabled", "disabled"),
            ("flip-icon-in-rtl", ""),
            ("href", "/home"),
            ("target", "_blank"),
            ("aria-label-selected", "On"),
            ("toggle", ""),
            ("selected", "selected"),
            ("type", "button"),
            ("value", "v"),
            ("name", "n"),
            ("form", "f"),
            ("id", "i"),
            ("style", "st"),
        ])
    );
}

#[test]
fn linear_progress_renders_numbers() {
    let p = linear_progress::Props {
        buffer: s("1"),
        value: s("0.25"),
        max: s("1"),
        indeterminate: false,
        four_color: true,
        id: None,
        style: Some(s("width: 10px;")),
    };
    assert_eq!(
        list(&p.attributes()),
        expect(&[
            ("buffer", "1"),
            ("value", "0.25"),
            ("max", "1"),
            ("four-color", ""),
            ("style", "width: 10px;"),
        ])
    );
}

#[test]
fn list_item_renders_with_custom_style_and_id() {
    let p = list_item::Props {
        disabled: false,
        kind: s("text"),
        href: String::new(),
        target: String::new(),
        id: Some(s("custom-id")),
        style: Some(s("color: orange;")),
    };
    assert_eq!(
        list(&p.attributes()),
        expect(&[
            ("type", "text"),
            ("href", ""),
            ("target", ""),
            ("id", "custom-id"),
            ("style", "color: orange;"),
        ])
    );
}

fn menu_props() -> menu::Props {
    menu::Props {
        anchor: String::new(),
        positioning: s("absolute"),
        quick: false,
        has_overflow: false,
        open: false,
        x_offset: 0,
        y_offset: 0,
        typeahead_delay: 200,
        anchor_corner: s("end-start"),
        menu_corner: s("start-start"),
        stay_open_on_outside_click: false,
        stay_open_on_focusout: false,
        skip_restore_focus: false,
        default_focus: s("first-item"),
        is_submenu: false,
    }
}

#[test]
fn menu_renders_defaults() {
    assert_eq!(
        list(&menu_props().attributes()),
        expect(&[
            ("anchor", ""),
            ("positioning", "absolute"),
            ("x-offset", "0"),
            ("y-offset", "0"),
            ("typeahead-delay", "200"),
            ("anchor-corner", "end-start"),
            ("menu-corner", "start-start"),
            ("default-focus", "first-item"),
        ])
    );
}

#[test]
fn menu_renders_offsets_and_flags() {
    let mut p = menu_props();
    p.anchor = s("menu-anchor");
    p.quick = true;
    p.has_overflow = true;
    p.open = true;
    p.x_offset = -12;
    p.y_offset = i32::MIN;
    p.typeahead_delay = u32::MAX;
    p.stay_open_on_outside_click = true;
    p.stay_open_on_focusout = true;
    p.skip_restore_focus = true;
    p.is_submenu = true;
    assert_eq!(
        list(&p.attributes()),
        expect(&[
            ("anchor", "menu-anchor"),
            ("positioning", "absolute"),
            ("quick", ""),
            ("has-overflow", ""),
            ("open", "open"),
            ("x-offset", "-12"),
            ("y-offset", "-2147483648"),
            ("typeahead-delay", "4294967295"),
            ("anchor-corner", "end-start"),
            ("menu-corner", "start-start"),
            ("stay-open-on-outside-click", ""),
            ("stay-open-on-focusout", ""),
            ("skip-restore-focus", ""),
            ("default-focus", "first-item"),
            ("is-submenu", ""),
        ])
    );
}

#[test]
fn menu_item_renders() {
    let p = menu_item::Props {
        disabled: false,
        kind: s("menuitem"),
        href: String::new(),
        target: String::new(),
        keep_open: true,
        selected: true,
        typeahead_text: s("app"),
        value: s("apple"),
    };
    assert_eq!(
        list(&p.attributes()),
        expect(&[
            ("type", "menuitem"),
            ("href", ""),
            ("target", ""),
            ("keep-open", ""),
            ("selected", "selected"),
            ("typeahead-text", "app"),
            ("value", "apple"),
        ])
    );
}

#[test]
fn progress_renders_with_custom_style_and_id() {
    let p = progress::Props {
        progress: s("0.5"),
        indeterminate: true,
        four_color: false,
        id: Some(s("custom-id")),
        style: Some(s("color: teal;")),
    };
    assert_eq!(
        list(&p.attributes()),
        expect(&[
            ("progress", "0.5"),
            ("indeterminate", ""),
            ("id", "custom-id"),
            ("style", "color: teal;"),
        ])
    );
}

#[test]
fn radio_renders_with_custom_style_and_id() {
    let p = radio::Props {
        disabled: false,
        value: s("a"),
        checked: true,
        name: s("group"),
        id: Some(s("custom-id")),
        style: Some(s("color: yellow;")),
    };
    assert_eq!(
        list(&p.attributes()),
        expect(&[
            ("value", "a"),
            ("checked", ""),
            ("name", "group"),
            ("id", "custom-id"),
            ("style", "color: yellow;"),
        ])
    );
}

#[test]
fn ripple_and_tab_render() {
    let r = ripple::Props { unbounded: true, disabled: true, id: None, style: None };
    assert_eq!(list(&r.attributes()), expect(&[("unbounded", ""), ("disabled", "disabled")]));
    let t = tab::Props { disabled: false, active: true, id: None, style: Some(s("x")) };
    assert_eq!(list(&t.attributes()), expect(&[("active", ""), ("style", "x")]));
}

#[test]
fn select_renders_with_custom_style_and_id() {
    let p = select::Props {
        label: s("Fruit"),
        value: s("apple"),
        disabled: false,
        id: Some(s("custom-id")),
        style: Some(s("color: gray;")),
    };
    assert_eq!(
        list(&p.attributes()),
        expect(&[
            ("label", "Fruit"),
            ("value", "apple"),
            ("id", "custom-id"),
            ("style", "color: gray;"),
        ])
    );
}

#[test]
fn slider_renders_range() {
    let p = slider::Props {
        disabled: false,
        min: s("0"),
        max: s("100"),
        value: s("0"),
        value_start: s("10"),
        value_end: s("90"),
        value_label: String::new(),
        value_label_start: s("lo"),
        value_label_end: s("hi"),
        aria_label_start: s("start"),
        aria_value_text_start: s("ten"),
        aria_label_end: s("end"),
        aria_value_text_end: s("ninety"),
        step: s("5"),
        ticks: true,
        labeled: false,
        range: true,
        name: String::new(),
        name_start: s("from"),
        name_end: s("to"),
    };
    assert_eq!(
        list(&p.attributes()),
        expect(&[
            ("min", "0"),
            ("max", "100"),
            ("value", "0"),
            ("value-start", "10"),
            ("value-end", "90"),
            ("value-label", ""),
            ("value-label-start", "lo"),
            ("value-label-end", "hi"),
            ("aria-label-start", "start"),
            ("aria-value-text-start", "ten"),
            ("aria-label-end", "end"),
            ("aria-value-text-end", "ninety"),
            ("step", "5"),
            ("ticks", ""),
            ("range", ""),
            ("name", ""),
            ("name-start", "from"),
            ("name-end", "to"),
        ])
    );
}

#[test]
fn sub_menu_renders_delays() {
    let p = sub_menu::Props {
        anchor_corner: s("end-start"),
        menu_corner: s("start-start"),
        hover_open_delay: 400,
        hover_close_delay: 0,
    };
    assert_eq!(
        list(&p.attributes()),
        expect(&[
            ("anchor-corner", "end-start"),
            ("menu-corner", "start-start"),
            ("hover-open-delay", "400"),
            ("hover-close-delay", "0"),
        ])
    );
}

#[test]
fn switch_renders_with_custom_style_and_id() {
    let p = switch::Props {
        disabled: false,
        selected: true,
        icons: true,
        show_only_selected_icon: true,
        required: true,
        value: s("on"),
        name: String::new(),
        id: Some(s("custom-id")),
        style: Some(s("color: hotpink;")),
    };
    assert_eq!(
        list(&p.attributes()),
        expect(&[
            ("selected", "selected"),
            ("icons", ""),
            ("show-only-selected-icon", ""),
            ("required", "required"),
            ("value", "on"),
            ("name", ""),
            ("id", "custom-id"),
            ("style", "color: hotpink;"),
        ])
    );
}

#[test]
fn tabs_renders_with_custom_style_and_id() {
    let p = tabs::Props {
        active_index: 3,
        id: Some(s("custom-id")),
        style: Some(s("color: navy;")),
    };
    assert_eq!(
        list(&p.attributes()),
        expect(&[("active-index", "3"), ("id", "custom-id"), ("style", "color: navy;")])
    );
}

#[test]
fn textfield_renders_with_custom_style_and_id() {
    let p = textfield::Props {
        label: s("Filename"),
        value: s("my-file.txt"),
        disabled: true,
        outlined: false,
        id: Some(s("custom-id")),
        style: Some(s("color: black;")),
    };
    assert_eq!(p.tag_name(), "md-filled-text-field");
    assert_eq!(
        list(&p.attributes()),
        expect(&[
            ("label", "Filename"),
            ("value", "my-file.txt"),
            ("disabled", "disabled"),
            ("id", "custom-id"),
            ("style", "color: black;"),
        ])
    );
    let q = textfield::Props { outlined: true, ..p };
    assert_eq!(q.tag_name(), "md-outlined-text-field");
}

#[test]
fn chip_writes_every_flag_as_given() {
    let mut p = chip(ChipKind::Filter);
    p.elevated = true;
    p.always_focusable = true;
    p.selected = true;
    p.removable = true;
    p.avatar = true;
    let all = expect(&[
        ("elevated", ""),
        ("href", ""),
        ("target", ""),
        ("download", ""),
        ("always-focusable", ""),
        ("selected", "selected"),
        ("removable", ""),
        ("avatar", ""),
    ]);
    assert_eq!(list(&p.attributes()), all);
    p.kind = ChipKind::Suggestion;
    assert_eq!(list(&p.attributes()), all);
    assert_eq!(p.tag_name(), "md-suggestion-chip");
}
