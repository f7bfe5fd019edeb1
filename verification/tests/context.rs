use modbus::ModbusError;
use modbus::context::{Modbus, RequestToSendMode, SerialMode};

#[test]
fn crate_modbus() {
    let modbus = Modbus::new_rtu("/dev/ttyUSB0", 9600, 'N', 8, 1);
    assert_eq!(modbus, modbus);
}

#[test]
fn create_modbus_context() {
    assert!(Modbus::new_rtu("/dev/ttyUSB0", 115200, 'N', 8, 1).is_ok());
}

#[test]
fn new_rtu_context() {
    assert!(Modbus::new_rtu("/dev/ttyS0", 115200, 'N', 8, 1).is_ok());
}

#[test]
fn rtu_get_serial_mode() {
    let modbus = Modbus::new_rtu("/dev/ttyS0", 115200, 'N', 8, 1).unwrap();
    assert_eq!(modbus.rtu_get_serial_mode().unwrap(), SerialMode::RtuRS232);
}

#[test]
fn rtu_set_serial_mode() {
    let mut modbus = Modbus::new_rtu("/dev/ttyS0", 115200, 'N', 8, 1).unwrap();
    assert_eq!(modbus.rtu_get_serial_mode().unwrap(), SerialMode::RtuRS232);
    assert!(modbus.rtu_set_serial_mode(SerialMode::RtuRS485).is_ok());
    assert_eq!(modbus.rtu_get_serial_mode().unwrap(), SerialMode::RtuRS485);
}

#[test]
fn rtu_get_rts() {
    let modbus = Modbus::new_rtu("/dev/ttyS0", 115200, 'N', 8, 1).unwrap();
    assert_eq!(modbus.rtu_get_rts().unwrap(), RequestToSendMode::RtuRtsNone);
}

#[test]
fn rtu_set_rts() {
    let mut modbus = Modbus::new_rtu("/dev/ttyS0", 115200, 'N', 8, 1).unwrap();
    // before
    assert_eq!(modbus.rtu_get_rts().unwrap(), RequestToSendMode::RtuRtsNone);
    // set rts mode
    assert!(modbus.rtu_set_rts(RequestToSendMode::RtuRtsUp).is_ok());
    // after set rts mode
    assert_eq!(modbus.rtu_get_rts().unwrap(), RequestToSendMode::RtuRtsUp);
}

#[test]
fn rtu_get_rts_delay() {
    let modbus = Modbus::new_rtu("/dev/ttyS0", 115200, 'N', 8, 1).unwrap();
    assert_eq!(modbus.rtu_get_rts_delay().unwrap(), 86);
}

#[test]
fn rtu_set_rts_delay() {
    let mut modbus = Modbus::new_rtu("/dev/ttyS0", 115200, 'N', 8, 1).unwrap();
    assert_eq!(modbus.rtu_get_rts_delay().unwrap(), 86);
    assert!(modbus.rtu_set_rts_delay(100).is_ok());
    assert_eq!(modbus.rtu_get_rts_delay().unwrap(), 100);
}

#[test]
fn new_rtu_rejects_bad_parity() {
    assert_eq!(
        Modbus::new_rtu("/dev/ttyS0", 115200, 'X', 8, 1),
        Err(ModbusError::InvalidConfiguration)
    );
    assert_eq!(
        Modbus::new_rtu("/dev/ttyS0", 0, 'N', 8, 1),
        Err(ModbusError::InvalidConfiguration)
    );
    assert_eq!(
        Modbus::new_rtu("/dev/ttyS0", 115200, 'N', 9, 1),
        Err(ModbusError::InvalidConfiguration)
    );
}

#[test]
fn set_slave_bounds() {
    let mut modbus = Modbus::new_rtu("/dev/ttyUSB0", 9600, 'N', 8, 1).unwrap();
    assert_eq!(modbus.set_slave(10), Ok(0));
    assert_eq!(modbus.slave(), 10);
    assert_eq!(modbus.set_slave(255), Err(ModbusError::InvalidConfiguration));
    assert_eq!(modbus.slave(), 10);
    assert_eq!(modbus.set_slave(0), Ok(0));
    assert_eq!(modbus.set_slave(247), Ok(0));
    assert_eq!(modbus.set_slave(-1), Err(ModbusError::InvalidConfiguration));
}

#[test]
fn set_debug_always_succeeds() {
    let mut modbus = Modbus::new_rtu("/dev/ttyUSB0", 9600, 'N', 8, 1).unwrap();
    assert_eq!(modbus.set_debug(true), Ok(0));
    assert_eq!(modbus.set_debug(false), Ok(0));
}

#[test]
fn new_tcp_port_bounds() {
    assert!(Modbus::new_tcp("127.0.0.1", 1502).is_ok());
    assert_eq!(
        Modbus::new_tcp("127.0.0.1", -1),
        Err(ModbusError::InvalidConfiguration)
    );
    assert_eq!(
        Modbus::new_tcp("127.0.0.1", 65536),
        Err(ModbusError::InvalidConfiguration)
    );
}

#[test]
fn new_tcp_pi_accepts_node_and_service() {
    assert!(Modbus::new_tcp_pi("::0", "1502").is_ok());
}

#[test]
fn serial_mode_needs_rtu_backend() {
    let mut modbus = Modbus::new_tcp("127.0.0.1", 1502).unwrap();
    assert_eq!(
        modbus.rtu_get_serial_mode(),
        Err(ModbusError::InvalidConfiguration)
    );
    assert_eq!(
        modbus.rtu_set_serial_mode(SerialMode::RtuRS485),
        Err(ModbusError::InvalidConfiguration)
    );
    assert_eq!(modbus.rtu_get_rts(), Err(ModbusError::InvalidConfiguration));
    assert_eq!(
        modbus.rtu_get_rts_delay(),
        Err(ModbusError::InvalidConfiguration)
    );
}

#[test]
fn connect_close_and_free() {
    let mut modbus = Modbus::new_rtu("/dev/ttyUSB0", 9600, 'N', 8, 1).unwrap();
    assert!(!modbus.is_connected());
    assert_eq!(modbus.connect(), Ok(0));
    assert!(modbus.is_connected());
    modbus.close();
    assert!(!modbus.is_connected());
    assert_eq!(modbus.connect(), Ok(0));
    modbus.free();
    assert!(!modbus.is_connected());
}
