use orm::connection::{Pool, PoolConfig, PoolConnection};
use orm::error::Error;

#[test]
fn the_default_configuration_allows_ten_sessions() {
    let config = PoolConfig::default();
    assert_eq!(config.max_connections, 10);
    assert_eq!(config.min_connections, 2);
    assert_eq!(config.connection_timeout, 30);
    assert_eq!(config.idle_timeout, Some(600));
}

#[test]
fn a_pool_has_one_permit_for_each_session_it_allows() {
    let pool = Pool::new(PoolConfig { max_connections: 3, ..PoolConfig::default() });
    assert_eq!(*pool.config(), PoolConfig { max_connections: 3, ..PoolConfig::default() });
    let semaphore = pool.semaphore();
    assert_eq!(semaphore.available_permits(), 3);

    let first = PoolConnection::new(semaphore.clone().try_acquire_owned().unwrap());
    let second = PoolConnection::new(semaphore.clone().try_acquire_owned().unwrap());
    let third = PoolConnection::new(semaphore.clone().try_acquire_owned().unwrap());
    assert_eq!(pool.semaphore().available_permits(), 0);
    assert!(semaphore.clone().try_acquire_owned().is_err());

    drop(second);
    assert_eq!(pool.semaphore().available_permits(), 1);
    drop(first);
    drop(third);
    assert_eq!(pool.semaphore().available_permits(), 3);

    let empty = Pool::new(PoolConfig { max_connections: 0, ..PoolConfig::default() });
    assert_eq!(empty.semaphore().available_permits(), 0);
}

#[test]
fn a_pool_cannot_count_more_than_an_eighth_of_the_address_space() {
    let most = usize::MAX / 8;
    let pool = Pool::try_new(PoolConfig { max_connections: most, ..PoolConfig::default() });
    assert_eq!(pool.unwrap().semaphore().available_permits(), most);
    match Pool::try_new(PoolConfig { max_connections: most + 1, ..PoolConfig::default() }) {
        Err(Error::ConfigError(detail)) => assert_eq!(detail, "Too many connections for a pool"),
        _ => panic!("a pool of too many connections"),
    }
}

#[test]
fn a_failed_acquisition_is_a_connection_error() {
    let pool = Pool::new(PoolConfig { connection_timeout: 5, ..PoolConfig::default() });
    match pool.timed_out() {
        Error::ConnectionError(detail) => {
            assert_eq!(detail, "Timed out waiting for a connection after 5 seconds")
        }
        other => panic!("{:?}", other),
    }
    let e = Pool::acquire_failed("semaphore closed".to_string());
    assert_eq!(e.message(), "Connection error: semaphore closed");
}
