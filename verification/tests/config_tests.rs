use hbone::Config;

#[test]
fn config_carries_the_tuning_parameters() {
    let cfg = Config {
        window_size: 4 * 1024 * 1024,
        connection_window_size: 16 * 1024 * 1024,
        frame_size: 1024 * 1024,
        pool_max_streams_per_conn: 100,
        pool_unused_release_timeout: 300_000,
    };
    let copy = cfg;
    assert_eq!(copy.window_size, 4 * 1024 * 1024);
    assert_eq!(copy.connection_window_size, 16 * 1024 * 1024);
    assert_eq!(copy.frame_size, 1024 * 1024);
    assert_eq!(copy.pool_max_streams_per_conn, 100);
    assert_eq!(copy.pool_unused_release_timeout, 300_000);
}
