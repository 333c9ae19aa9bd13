use std::cell::RefCell;
use std::rc::Rc;

use scoped_i2c_proxy::i2c_proxy::I2cBus;
use scoped_i2c_proxy::i2c_proxy::I2cCommand;
use scoped_i2c_proxy::i2c_proxy::I2cCommandView;
use scoped_i2c_proxy::i2c_proxy::I2cHandlerCallable;
use scoped_i2c_proxy::i2c_proxy::I2cHandlerProxy;
use scoped_i2c_proxy::i2c_proxy::I2cResponse;
use scoped_i2c_proxy::in_memory_handler::InMemoryHandler;
use scoped_i2c_proxy::scoped_task_spawn_provider::ExposedI2cProxy;
use scoped_i2c_proxy::scoped_task_spawn_provider::ScopedTaskSpawnProvider;
use scoped_i2c_proxy::some_driver::SomeDriver;

/// A capability that logs every command it is asked to route, then either
/// echoes it back (full queue) or answers reads with a fixed byte.
struct RecordingCapability {
    log: Rc<RefCell<Vec<I2cCommand>>>,
    fill: u8,
    accept: bool,
}

impl I2cHandlerCallable for RecordingCapability {
    // The three specification-level members exist only for reasoning; their
    // compiled stand-ins are never called at run time.
    fn delivered(&self) -> vstd::seq::Seq<I2cCommandView> {
        unreachable!()
    }

    fn may_refuse(&self, _command: I2cCommandView) -> bool {
        unreachable!()
    }

    fn may_accept(&self, _command: I2cCommandView, _response: I2cResponse) -> bool {
        unreachable!()
    }

    fn call_i2c(&mut self, command: I2cCommand) -> Result<I2cResponse, I2cCommand> {
        self.log.borrow_mut().push(command.clone());
        if !self.accept {
            return Err(command);
        }
        match &command {
            I2cCommand::Write(_, _) => Ok(I2cResponse::Written),
            I2cCommand::Read(_, buffer) => Ok(I2cResponse::Data(vec![self.fill; buffer.len()])),
            I2cCommand::WriteRead(_, _, buffer) => {
                Ok(I2cResponse::Data(vec![self.fill; buffer.len()]))
            }
        }
    }
}

#[test]
fn proxy_starts_empty() {
    let proxy: I2cHandlerProxy<InMemoryHandler> = I2cHandlerProxy::new();
    assert!(!proxy.is_installed());
}

#[test]
fn set_spawn_installs_and_clears() {
    let mut proxy: I2cHandlerProxy<InMemoryHandler> = I2cHandlerProxy::new();
    proxy.set_spawn(Some(InMemoryHandler::new(0, true)));
    assert!(proxy.is_installed());
    proxy.set_spawn(None);
    assert!(!proxy.is_installed());
}

#[test]
fn write_delivers_exactly_one_content_equal_command() {
    let log = Rc::new(RefCell::new(Vec::new()));
    let capability = RecordingCapability { log: Rc::clone(&log), fill: 0, accept: true };
    let mut proxy = I2cHandlerProxy::new();
    proxy.set_spawn(Some(capability));

    let bytes = vec![5u8, 6, 7];
    let result = proxy.write(0x42, &bytes);
    assert!(result.is_ok());

    let delivered = log.borrow();
    assert_eq!(delivered.len(), 1);
    assert_eq!(delivered[0], I2cCommand::Write(0x42, vec![5, 6, 7]));
}

#[test]
fn write_routing_failure_returns_what_route_returned() {
    let log = Rc::new(RefCell::new(Vec::new()));
    let capability = RecordingCapability { log: Rc::clone(&log), fill: 0, accept: false };
    let mut proxy = I2cHandlerProxy::new();
    proxy.set_spawn(Some(capability));

    let bytes = vec![0xFFu8];
    let result = proxy.write(0xFF, &bytes);
    let failed = result.unwrap_err();
    assert_eq!(failed, I2cCommand::Write(0xFF, vec![0xFF]));
    assert_eq!(log.borrow().len(), 1);
    assert_eq!(log.borrow()[0], failed);
}

#[test]
fn scenario_read_fills_buffer_and_guard_clears_slot() {
    let log = Rc::new(RefCell::new(Vec::new()));
    let capability = RecordingCapability { log: Rc::clone(&log), fill: 0xAE, accept: true };
    let proxy = I2cHandlerProxy::new();
    let mut driver = SomeDriver::new(proxy);

    let scope = ScopedTaskSpawnProvider::new(capability, &mut driver);
    assert!(driver.expose().is_installed());

    let data = driver.do_stuff().unwrap();
    assert_eq!(data, vec![0xAE; 100]);

    let delivered = log.borrow();
    assert_eq!(delivered.len(), 1);
    assert_eq!(delivered[0], I2cCommand::Read(0xFF, vec![0; 100]));
    drop(delivered);

    scope.release(&mut driver);
    assert!(!driver.expose().is_installed());
}

#[test]
fn nesting_hazard_younger_guard_clears_older_scope() {
    let handler_a = InMemoryHandler::new(0x11, true);
    let handler_b = InMemoryHandler::new(0x22, true);
    let proxy = I2cHandlerProxy::new();
    let mut driver = SomeDriver::new(proxy);

    let guard_a = ScopedTaskSpawnProvider::new(handler_a, &mut driver);
    let guard_b = ScopedTaskSpawnProvider::new(handler_b, &mut driver);

    // Last write wins: the bus now routes through B's handler.
    let data = driver.do_stuff().unwrap();
    assert_eq!(data, vec![0x22; 100]);

    // Releasing the younger guard empties the slot even though the older
    // guard is still live.
    guard_b.release(&mut driver);
    assert!(!driver.expose().is_installed());

    // Releasing the older guard afterwards leaves the slot empty as well.
    guard_a.release(&mut driver);
    assert!(!driver.expose().is_installed());
}

#[test]
fn queue_full_echoes_write_read_command() {
    let handler = InMemoryHandler::new(0, false);
    let mut proxy = I2cHandlerProxy::new();
    proxy.set_spawn(Some(handler));

    let payload = vec![1u8, 2, 3];
    let mut buffer = vec![9u8; 4];
    let result = proxy.write_read(0x10, &payload, &mut buffer);

    let failed = result.unwrap_err();
    assert_eq!(failed, I2cCommand::WriteRead(0x10, vec![1, 2, 3], vec![9, 9, 9, 9]));
    // The caller's buffer is untouched by a failed routing.
    assert_eq!(buffer, vec![9u8; 4]);
}

#[test]
fn guard_clears_slot_after_inner_failure() {
    let handler = InMemoryHandler::new(0, false);
    let proxy = I2cHandlerProxy::new();
    let mut driver = SomeDriver::new(proxy);

    let scope = ScopedTaskSpawnProvider::new(handler, &mut driver);
    let failed = driver.do_stuff().unwrap_err();
    assert_eq!(failed, I2cCommand::Read(0xFF, vec![0; 100]));

    // The guarded block failed, but releasing the scope still empties the
    // slot.
    scope.release(&mut driver);
    assert!(!driver.expose().is_installed());
}

#[test]
fn in_memory_handler_serves_write_and_write_read() {
    let handler = InMemoryHandler::new(0x07, true);
    let mut proxy = I2cHandlerProxy::new();
    proxy.set_spawn(Some(handler));

    assert!(proxy.write(0x20, &vec![1u8]).is_ok());

    let mut buffer = vec![0u8; 4];
    assert!(proxy.write_read(0x20, &vec![1u8], &mut buffer).is_ok());
    assert_eq!(buffer, vec![0x07; 4]);
}

#[test]
fn command_equality_is_content_based() {
    let first = I2cCommand::Write(0x10, vec![1, 2, 3]);
    let second = I2cCommand::Write(0x10, vec![1, 2, 3]);
    assert_eq!(first, second);

    assert_ne!(I2cCommand::Write(0x10, vec![1, 2, 3]), I2cCommand::Write(0x11, vec![1, 2, 3]));
    assert_ne!(I2cCommand::Write(0x10, vec![1, 2, 3]), I2cCommand::Write(0x10, vec![1, 2]));
    assert_ne!(I2cCommand::Write(0x10, vec![1, 2, 3]), I2cCommand::Read(0x10, vec![1, 2, 3]));
    assert_eq!(
        I2cCommand::WriteRead(0x10, vec![1], vec![2]),
        I2cCommand::WriteRead(0x10, vec![1], vec![2])
    );
}

#[test]
fn bytes_eq_compares_contents() {
    assert!(scoped_i2c_proxy::i2c_proxy::bytes_eq(&vec![1, 2, 3], &vec![1, 2, 3]));
    assert!(!scoped_i2c_proxy::i2c_proxy::bytes_eq(&vec![1, 2, 3], &vec![1, 2]));
    assert!(!scoped_i2c_proxy::i2c_proxy::bytes_eq(&vec![1, 2, 3], &vec![1, 2, 4]));
    assert!(scoped_i2c_proxy::i2c_proxy::bytes_eq(&Vec::new(), &Vec::new()));
}
