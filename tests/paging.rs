use yamaha_remote::{net_usb_get_list_info, LIST_LANGUAGE};

#[test]
fn list_pages_follow_each_other() {
    let first = net_usb_get_list_info("192.168.1.20".to_string(), "usb".to_string(), 0, 8);
    assert_eq!((first.index, first.size), (0, 8));
    assert_eq!(first.input, "usb");
    assert_eq!(first.lang, "en");
    assert_eq!(LIST_LANGUAGE, "en");

    let second = first.next_page().expect("fits");
    assert_eq!((second.index, second.size), (8, 8));
    assert_eq!(second.ip, "192.168.1.20");
    assert_eq!(second.input, "usb");
    let first_end = first.index + first.size;
    assert!(first_end <= second.index);
    assert_eq!(second.index + second.size, 16);
}

#[test]
fn next_page_past_u32_is_none() {
    let last = net_usb_get_list_info("a".to_string(), "server".to_string(), u32::MAX - 4, 8);
    assert!(last.next_page().is_none());
    let edge = net_usb_get_list_info("a".to_string(), "server".to_string(), u32::MAX - 8, 8);
    assert_eq!(edge.next_page().map(|p| p.index), Some(u32::MAX));
}
