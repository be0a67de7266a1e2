use rust_windows::com::{initialized, CLSCTX_ALL, GUID};
use rust_windows::dialog::DialogUtil;
use rust_windows::gdi::{text_out, Dc};
use rust_windows::resource::{Image, ImageType, MenuPointer, MenuResource, ToHandle};
use rust_windows::ll::types::RECT;
use rust_windows::window::{
    client_rect, window_text, Window, WndClass, WS_OVERLAPPEDWINDOW,
};

#[test]
fn null_menu_is_the_resource_number_zero() {
    match MenuResource::null() {
        MenuResource::MenuId(id) => assert_eq!(id, 0),
        MenuResource::MenuName(_) => panic!("the null menu has a name"),
    }
}

#[test]
fn menu_pointer_of_a_name_is_its_wide_string() {
    match MenuResource::MenuName(String::from("Main")).menu_pointer() {
        MenuPointer::Name(units) => assert_eq!(units, vec![0x4Du16, 0x61, 0x69, 0x6E, 0]),
        MenuPointer::Id(_) => panic!("a named menu was given a number"),
    }
}

#[test]
fn menu_pointer_of_a_number_is_the_number() {
    match MenuResource::MenuId(101).menu_pointer() {
        MenuPointer::Id(id) => assert_eq!(id, 101),
        MenuPointer::Name(_) => panic!("a numbered menu was given a name"),
    }
}

#[test]
fn with_menu_p_returns_what_the_closure_returns() {
    let by_name = MenuResource::MenuName(String::from("ab"));
    let n = by_name.with_menu_p(|p| match p {
        MenuPointer::Name(units) => units.len() as isize,
        MenuPointer::Id(id) => -id,
    });
    assert_eq!(n, 3);
    let by_id = MenuResource::MenuId(7);
    let m = by_id.with_menu_p(|p| match p {
        MenuPointer::Name(units) => units.len() as isize,
        MenuPointer::Id(id) => -id,
    });
    assert_eq!(m, -7);
}

#[test]
fn image_type_codes() {
    assert_eq!(ImageType::IMAGE_BITMAP.code(), 0);
    assert_eq!(ImageType::IMAGE_ICON.code(), 1);
    assert_eq!(ImageType::IMAGE_CURSOR.code(), 2);
}

#[test]
fn absent_image_has_the_null_handle() {
    let none: Option<Image> = None;
    assert_eq!(none.to_handle(), 0);
    assert_eq!(Some(Image { image: 0x44 }).to_handle(), 0x44);
    assert_eq!(Image { image: 0x45 }.to_handle(), 0x45);
}

#[test]
fn image_loading_that_gave_null_gives_no_image() {
    assert_eq!(Image::loaded(0), None);
    assert_eq!(Image::loaded(9), Some(Image { image: 9 }));
}

#[test]
fn initialisation_succeeds_on_zero_only() {
    assert_eq!(initialized(0), Ok(()));
    assert_eq!(initialized(1), Err(1));
    assert_eq!(initialized(-2147467259), Err(-2147467259));
}

#[test]
fn clsctx_all_is_the_union_of_its_four_places() {
    assert_eq!(CLSCTX_ALL, 0x17);
}

#[test]
fn guid_holds_its_four_parts() {
    let g = GUID { data1: 1, data2: 2, data3: 3, data4: [4; 8] };
    assert_eq!(g, GUID { data1: 1, data2: 2, data3: 3, data4: [4, 4, 4, 4, 4, 4, 4, 4] });
}

#[test]
fn null_window_has_the_null_handle() {
    assert_eq!(Window::null().wnd, 0);
    assert_eq!(Window::from_handle(0x99).wnd, 0x99);
    assert_eq!(Window::from_handle(0x99), Window { wnd: 0x99 });
}

#[test]
fn window_creation_that_gave_null_gives_no_window() {
    assert_eq!(Window::created(0), None);
    assert_eq!(Window::created(0xAAAA), Some(Window { wnd: 0xAAAA }));
}

#[test]
fn window_styles_have_the_platform_values() {
    assert_eq!(WS_OVERLAPPEDWINDOW, 0xcf0000);
}

#[test]
fn window_text_is_read_up_to_the_terminator() {
    let buf: &[u16] = &[0x48, 0x69, 0, 0x7A];
    assert_eq!(window_text(2, 2, buf), "Hi");
}

#[test]
fn window_text_is_empty_where_the_lengths_differ() {
    let buf: &[u16] = &[0x48, 0x69, 0];
    assert_eq!(window_text(2, 1, buf), "");
    assert_eq!(window_text(3, 2, buf), "");
}

#[test]
fn window_text_is_empty_without_a_terminator() {
    let buf: &[u16] = &[0x48, 0x69];
    assert_eq!(window_text(2, 2, buf), "");
}

#[test]
fn window_text_replaces_a_lone_surrogate() {
    let buf: &[u16] = &[0x48, 0xDC00, 0];
    assert_eq!(window_text(2, 2, buf), "H\u{FFFD}");
}

#[test]
fn device_context_that_is_null_is_none() {
    assert_eq!(Dc::created(0), None);
    assert_eq!(Dc::created(5), Some(Dc { raw: 5 }));
    assert_eq!(Dc { raw: 5 }.raw(), 5);
}

#[test]
fn text_out_counts_code_units_without_the_terminator() {
    let t = text_out("a\u{1F600}");
    assert_eq!(t.units, vec![0x61u16, 0xD83D, 0xDE00, 0]);
    assert_eq!(t.count, 3);
    let empty = text_out("");
    assert_eq!(empty.units, vec![0u16]);
    assert_eq!(empty.count, 0);
}

#[test]
fn message_box_parameters() {
    let b = Window { wnd: 0x10 }.message_box("Hi", "T");
    assert_eq!(b.owner, 0x10);
    assert_eq!(b.text, vec![0x48u16, 0x69, 0]);
    assert_eq!(b.caption, vec![0x54u16, 0]);
    assert_eq!(b.style, 0);
}

#[test]
fn client_rect_is_there_where_the_call_succeeded() {
    let rect = RECT { left: 0, top: 0, right: 640, bottom: 480 };
    assert_eq!(client_rect(1, rect), Some(rect));
    assert_eq!(client_rect(-1, rect), Some(rect));
    assert_eq!(client_rect(0, rect), None);
}

#[test]
fn window_class_parameters() {
    let class = WndClass {
        classname: String::from("Main"),
        style: 0x0003,
        icon: Some(Image { image: 0x11 }),
        icon_small: None,
        cursor: Some(Image { image: 0x22 }),
        background: 6,
        menu: MenuResource::MenuId(101),
        cls_extra: 0,
        wnd_extra: 8,
    };
    let p = class.params();
    assert_eq!(p.style, 3);
    assert_eq!((p.cls_extra, p.wnd_extra), (0, 8));
    assert_eq!((p.icon, p.icon_small, p.cursor), (0x11, 0, 0x22));
    assert_eq!(p.background, 6);
    match p.menu {
        MenuPointer::Id(id) => assert_eq!(id, 101),
        MenuPointer::Name(_) => panic!("a numbered menu was given a name"),
    }
    assert_eq!(p.class_name, vec![0x4Du16, 0x61, 0x69, 0x6E, 0]);
}

#[test]
fn window_class_parameters_name_the_menu() {
    let class = WndClass {
        classname: String::new(),
        style: 0,
        icon: None,
        icon_small: None,
        cursor: None,
        background: 0,
        menu: MenuResource::MenuName(String::from("m")),
        cls_extra: -1,
        wnd_extra: 0,
    };
    let p = class.params();
    assert_eq!(p.cls_extra, -1);
    assert_eq!(p.class_name, vec![0u16]);
    match p.menu {
        MenuPointer::Name(units) => assert_eq!(units, vec![0x6Du16, 0]),
        MenuPointer::Id(_) => panic!("a named menu was given a number"),
    }
}

#[test]
fn registration_failed_where_the_atom_is_zero() {
    assert!(!WndClass::registered(0));
    assert!(WndClass::registered(1));
    assert!(WndClass::registered(0xC001));
}
