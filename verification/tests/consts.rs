use userfaultfd::linux4_11;
use userfaultfd::linux5_7;

#[test]
fn linux4_11_consts_correct() {
    assert_eq!(linux4_11::UFFD_API, 0xAA, "UFFD_API");
    assert_eq!(linux4_11::UFFD_API_FEATURES, 0x7E, "UFFD_API_FEATURES");
    assert_eq!(
        linux4_11::UFFD_API_IOCTLS,
        0x8000_0000_0000_0003,
        "UFFD_API_IOCTLS"
    );
    assert_eq!(
        linux4_11::UFFD_API_RANGE_IOCTLS,
        0x1C,
        "UFFD_API_RANGE_IOCTLS"
    );
    assert_eq!(
        linux4_11::UFFDIO_REGISTER_MODE_MISSING,
        1,
        "UFFDIO_REGISTER_MODE_MISSING"
    );
    assert_eq!(
        linux4_11::UFFDIO_REGISTER_MODE_WP,
        2,
        "UFFDIO_REGISTER_MODE_WP"
    );
    assert_eq!(
        linux4_11::UFFDIO_COPY_MODE_DONTWAKE,
        1,
        "UFFDIO_COPY_MODE_DONTWAKE"
    );
    assert_eq!(
        linux4_11::UFFDIO_ZEROPAGE_MODE_DONTWAKE,
        1,
        "UFFDIO_ZEROPAGE_MODE_DONTWAKE"
    );
}

#[test]
fn linux5_7_consts_correct() {
    assert_eq!(linux5_7::UFFD_API, 0xAA, "UFFD_API");
    assert_eq!(linux5_7::UFFD_API_FEATURES, 0x1FF, "UFFD_API_FEATURES");
    assert_eq!(
        linux5_7::UFFD_API_IOCTLS,
        0x8000_0000_0000_0003,
        "UFFD_API_IOCTLS"
    );
    assert_eq!(
        linux5_7::UFFD_API_RANGE_IOCTLS,
        0x5C,
        "UFFD_API_RANGE_IOCTLS"
    );
    assert_eq!(
        linux5_7::UFFD_API_RANGE_IOCTLS_BASIC,
        0x0C,
        "UFFD_API_RANGE_IOCTLS_BASIC"
    );
    assert_eq!(
        linux5_7::UFFDIO_REGISTER_MODE_MISSING,
        1,
        "UFFDIO_REGISTER_MODE_MISSING"
    );
    assert_eq!(
        linux5_7::UFFDIO_REGISTER_MODE_WP,
        2,
        "UFFDIO_REGISTER_MODE_WP"
    );
    assert_eq!(
        linux5_7::UFFDIO_COPY_MODE_DONTWAKE,
        1,
        "UFFDIO_COPY_MODE_DONTWAKE"
    );
    assert_eq!(linux5_7::UFFDIO_COPY_MODE_WP, 2, "UFFDIO_COPY_MODE_WP");
    assert_eq!(
        linux5_7::UFFDIO_ZEROPAGE_MODE_DONTWAKE,
        1,
        "UFFDIO_ZEROPAGE_MODE_DONTWAKE"
    );
    assert_eq!(linux5_7::UFFDIO_API, 0xc018aa3f, "UFFDIO_API");
    assert_eq!(linux5_7::UFFDIO_REGISTER, 0xc020aa00, "UFFDIO_REGISTER");
    assert_eq!(linux5_7::UFFDIO_UNREGISTER, 0x8010aa01, "UFFDIO_UNREGISTER");
    assert_eq!(linux5_7::UFFDIO_WAKE, 0x8010aa02, "UFFDIO_WAKE");
    assert_eq!(linux5_7::UFFDIO_COPY, 0xc028aa03, "UFFDIO_COPY");
    assert_eq!(linux5_7::UFFDIO_ZEROPAGE, 0xc020aa04, "UFFDIO_ZEROPAGE");
    assert_eq!(
        linux5_7::UFFDIO_WRITEPROTECT,
        0xc018aa06,
        "UFFDIO_WRITEPROTECT"
    );
}
