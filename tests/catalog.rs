use hwcodec::catalog::{
    possible_support_decoders, possible_support_encoders, Api, DataFormat, InnerDecodeContext,
    InnerEncodeContext, Platform,
};

fn enc(api: Api, format: DataFormat) -> InnerEncodeContext {
    InnerEncodeContext { api, format }
}

fn dec(api: Api, data_format: DataFormat) -> InnerDecodeContext {
    InnerDecodeContext { api, data_format }
}

#[test]
fn failed_probe_gives_empty_catalogs() {
    for p in [Platform::Windows, Platform::Linux, Platform::Other] {
        for probe in [1, -1, i32::MAX, i32::MIN] {
            assert!(possible_support_encoders(p, probe).is_empty());
            assert!(possible_support_decoders(p, probe).is_empty());
        }
    }
}

#[test]
fn linux_encode_catalog_is_device_major() {
    let v = possible_support_encoders(Platform::Linux, 0);
    assert_eq!(
        v,
        vec![
            enc(Api::OpenCl, DataFormat::H264),
            enc(Api::OpenCl, DataFormat::H265),
            enc(Api::Vulkan, DataFormat::H264),
            enc(Api::Vulkan, DataFormat::H265),
        ]
    );
}

#[test]
fn linux_decode_catalog_is_device_major() {
    let v = possible_support_decoders(Platform::Linux, 0);
    assert_eq!(
        v,
        vec![
            dec(Api::OpenCl, DataFormat::H264),
            dec(Api::OpenCl, DataFormat::H265),
            dec(Api::Vulkan, DataFormat::H264),
            dec(Api::Vulkan, DataFormat::H265),
        ]
    );
}

#[test]
fn windows_catalog_offers_dx11() {
    let e = possible_support_encoders(Platform::Windows, 0);
    assert_eq!(e, vec![enc(Api::Dx11, DataFormat::H264), enc(Api::Dx11, DataFormat::H265)]);
    let d = possible_support_decoders(Platform::Windows, 0);
    assert_eq!(d, vec![dec(Api::Dx11, DataFormat::H264), dec(Api::Dx11, DataFormat::H265)]);
}

#[test]
fn platform_without_apis_offers_nothing() {
    assert!(possible_support_encoders(Platform::Other, 0).is_empty());
    assert!(possible_support_decoders(Platform::Other, 0).is_empty());
}

#[test]
fn repeated_queries_agree() {
    for p in [Platform::Windows, Platform::Linux, Platform::Other] {
        for probe in [0, 1] {
            assert_eq!(possible_support_encoders(p, probe), possible_support_encoders(p, probe));
            assert_eq!(possible_support_decoders(p, probe), possible_support_decoders(p, probe));
        }
    }
}

#[test]
fn catalog_has_no_duplicates() {
    let v = possible_support_encoders(Platform::Linux, 0);
    for i in 0..v.len() {
        for j in 0..v.len() {
            if i != j {
                assert_ne!(v[i], v[j]);
            }
        }
    }
}
