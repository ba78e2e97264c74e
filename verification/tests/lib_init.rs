use starry_api::init;

#[test]
fn init_after_a_successful_mount() {
    init(Ok(()));
}
