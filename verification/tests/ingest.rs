use frame_relay::ingest::{is_stream_key, pipeline_description};

#[test]
fn stream_keys_start_with_the_prefix_and_are_no_credentials() {
    assert!(is_stream_key("CCTV_FRONT"));
    assert!(is_stream_key("CCTV_"));
    assert!(is_stream_key("CCTV_CRED"));
    assert!(is_stream_key("CCTV_CREDIT"));
    assert!(!is_stream_key("CCTV_CRED_USER"));
    assert!(!is_stream_key("CCTV_CRED_PASS"));
    assert!(!is_stream_key("CCTV_CRED_"));
    assert!(!is_stream_key("CCTV"));
    assert!(!is_stream_key("cctv_front"));
    assert!(!is_stream_key("HOME"));
    assert!(!is_stream_key(""));
    assert!(!is_stream_key("MY_CCTV_FRONT"));
}

#[test]
fn pipeline_description_places_address_and_credentials() {
    assert_eq!(
        pipeline_description("rtsp://10.0.0.7:554/live", "admin", "pw"),
        "rtspsrc location=rtsp://10.0.0.7:554/live user-id=admin user-pw=pw ! decodebin ! videoconvert ! videoscale ! video/x-raw,width=640,height=360 ! jpegenc quality=70 ! appsink name=sink emit-signals=true sync=false"
    );
}

#[test]
fn pipeline_description_of_empty_settings() {
    assert_eq!(
        pipeline_description("", "", ""),
        "rtspsrc location= user-id= user-pw= ! decodebin ! videoconvert ! videoscale ! video/x-raw,width=640,height=360 ! jpegenc quality=70 ! appsink name=sink emit-signals=true sync=false"
    );
}
