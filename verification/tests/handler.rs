use pd_worker::handler::{ConnData, Sender, ServerError, ServerHandler, TimerMsg, Token};

struct NoopHandler;

impl ServerHandler for NoopHandler {}

struct CountingHandler {
    ticks: u64,
    timers: u64,
    quit: bool,
}

impl ServerHandler for CountingHandler {
    fn handle_tick(&mut self, _sender: &Sender) -> Result<(), ServerError> {
        self.ticks += 1;
        Ok(())
    }

    fn handle_timer(&mut self, _sender: &Sender, msg: TimerMsg) -> Result<(), ServerError> {
        self.timers += msg.payload;
        Err(ServerError { code: 7 })
    }

    fn handle_quit(&mut self) {
        self.quit = true;
    }
}

#[test]
fn default_read_echoes_messages_back() {
    let mut h = NoopHandler;
    let sender = Sender { id: 0 };
    let msgs = vec![
        ConnData { msg_id: 1, data: b"ping".to_vec() },
        ConnData { msg_id: 2, data: b"pong".to_vec() },
    ];
    let out = h.handle_read_data(&sender, Token { id: 3 }, msgs).unwrap();
    assert_eq!(out.len(), 2);
    assert_eq!(out[0].msg_id, 1);
    assert_eq!(out[0].data, b"ping".to_vec());
    assert_eq!(out[1].msg_id, 2);
    assert_eq!(out[1].data, b"pong".to_vec());
}

#[test]
fn default_tick_timer_and_quit_do_nothing() {
    let mut h = NoopHandler;
    let sender = Sender { id: 0 };
    assert!(h.handle_tick(&sender).is_ok());
    assert!(h.handle_timer(&sender, TimerMsg { payload: 9 }).is_ok());
    h.handle_quit();
}

#[test]
fn overriding_handler_sees_every_dispatch() {
    let mut h = CountingHandler { ticks: 0, timers: 0, quit: false };
    let sender = Sender { id: 0 };
    assert!(h.handle_tick(&sender).is_ok());
    assert!(h.handle_tick(&sender).is_ok());
    let e = h.handle_timer(&sender, TimerMsg { payload: 5 }).unwrap_err();
    assert_eq!(e, ServerError { code: 7 });
    h.handle_quit();
    assert_eq!(h.ticks, 2);
    assert_eq!(h.timers, 5);
    assert!(h.quit);
}
