use gdew0213i5f::{Command, Outcome, RefreshLUT, Transaction, Transfer, GDEW0213I5F};

/// What reached the wires, as a stand-in transport saw it.
#[derive(Debug, PartialEq, Clone)]
enum Wire {
    ResetPulse,
    CommandByte(u8),
    DataBytes(Vec<u8>),
    Poll(bool),
}

/// A transport that records every write, refuses the write numbered
/// `fail_at_write` with error 77, and reads the busy line from `levels`:
/// `true` is high. Once `levels` runs out the line reads high.
struct Bench {
    wire: Vec<Wire>,
    writes: usize,
    fail_at_write: Option<usize>,
    levels: Vec<bool>,
    polls: usize,
}

impl Bench {
    fn new(levels: &[bool], fail_at_write: Option<usize>) -> Bench {
        Bench { wire: Vec::new(), writes: 0, fail_at_write, levels: levels.to_vec(), polls: 0 }
    }

    fn write(&mut self, event: Wire) -> Outcome<u32> {
        let number = self.writes;
        self.writes += 1;
        if self.fail_at_write == Some(number) {
            return Outcome::Failed(77);
        }
        self.wire.push(event);
        Outcome::Completed
    }

    fn perform(&mut self, transfer: &Transfer) -> Outcome<u32> {
        match transfer {
            Transfer::Reset => {
                self.wire.push(Wire::ResetPulse);
                Outcome::Completed
            }
            Transfer::Command(command) => self.write(Wire::CommandByte(command.address())),
            Transfer::Data(bytes) => self.write(Wire::DataBytes(bytes.clone())),
            Transfer::DataRepeated { value, times } => {
                self.write(Wire::DataBytes(vec![*value; *times as usize]))
            }
            Transfer::WaitUntilIdle => {
                let level = if self.polls < self.levels.len() { self.levels[self.polls] } else { true };
                self.polls += 1;
                self.wire.push(Wire::Poll(level));
                Outcome::BusyLine(level)
            }
        }
    }

    fn run(&mut self, plan: Vec<Transfer>) -> Result<(), u32> {
        let mut transaction = Transaction::new(plan);
        let mut rounds = 0;
        loop {
            rounds += 1;
            assert!(rounds < 10_000, "the transaction does not end");
            let outcome = match transaction.current() {
                None => return Ok(()),
                Some(transfer) => self.perform(transfer),
            };
            transaction.report(outcome)?;
        }
    }
}

#[test]
fn an_empty_transaction_has_nothing_to_do() {
    let mut transaction = Transaction::new(Vec::new());
    assert_eq!(transaction.current(), None);
    assert_eq!(transaction.report(Outcome::<u32>::Completed), Ok(()));
    assert_eq!(transaction.report(Outcome::<u32>::BusyLine(true)), Ok(()));
    assert_eq!(transaction.current(), None);
}

#[test]
fn transfers_come_up_in_order() {
    let plan = vec![
        Transfer::Reset,
        Transfer::Command(Command::POWER_ON),
        Transfer::Data(vec![1, 2]),
        Transfer::DataRepeated { value: 9, times: 3 },
    ];
    let mut transaction = Transaction::new(plan);
    assert_eq!(transaction.current(), Some(&Transfer::Reset));
    assert_eq!(transaction.current(), Some(&Transfer::Reset));
    assert_eq!(transaction.report(Outcome::<u32>::Completed), Ok(()));
    assert_eq!(transaction.current(), Some(&Transfer::Command(Command::POWER_ON)));
    assert_eq!(transaction.report(Outcome::<u32>::Completed), Ok(()));
    assert_eq!(transaction.current(), Some(&Transfer::Data(vec![1, 2])));
    assert_eq!(transaction.report(Outcome::<u32>::Completed), Ok(()));
    assert_eq!(transaction.current(), Some(&Transfer::DataRepeated { value: 9, times: 3 }));
    assert_eq!(transaction.report(Outcome::<u32>::Completed), Ok(()));
    assert_eq!(transaction.current(), None);
}

#[test]
fn wait_until_idle_polls_busy_busy_idle_exactly_three_times() {
    let mut bench = Bench::new(&[false, false, true], None);
    assert_eq!(bench.run(vec![Transfer::WaitUntilIdle]), Ok(()));
    assert_eq!(bench.polls, 3);
    assert_eq!(bench.wire, vec![Wire::Poll(false), Wire::Poll(false), Wire::Poll(true)]);
}

#[test]
fn wait_until_idle_returns_at_once_when_the_line_is_idle() {
    let mut bench = Bench::new(&[true], None);
    assert_eq!(bench.run(vec![Transfer::WaitUntilIdle]), Ok(()));
    assert_eq!(bench.polls, 1);
}

#[test]
fn a_wait_stays_current_while_the_line_says_busy() {
    let mut transaction =
        Transaction::new(vec![Transfer::WaitUntilIdle, Transfer::Command(Command::POWER_ON)]);
    for _ in 0..1000 {
        assert_eq!(transaction.report(Outcome::<u32>::BusyLine(false)), Ok(()));
        assert_eq!(transaction.current(), Some(&Transfer::WaitUntilIdle));
    }
    assert_eq!(transaction.report(Outcome::<u32>::BusyLine(true)), Ok(()));
    assert_eq!(transaction.current(), Some(&Transfer::Command(Command::POWER_ON)));
}

#[test]
fn a_wait_is_not_over_by_saying_so() {
    let mut transaction = Transaction::new(vec![Transfer::WaitUntilIdle]);
    assert_eq!(transaction.report(Outcome::<u32>::Completed), Ok(()));
    assert_eq!(transaction.current(), Some(&Transfer::WaitUntilIdle));
}

#[test]
fn a_sample_of_the_busy_line_does_not_stand_for_a_write() {
    let mut transaction = Transaction::new(vec![Transfer::Command(Command::POWER_ON)]);
    assert_eq!(transaction.report(Outcome::<u32>::BusyLine(true)), Ok(()));
    assert_eq!(transaction.current(), Some(&Transfer::Command(Command::POWER_ON)));
    assert_eq!(transaction.report(Outcome::<u32>::BusyLine(false)), Ok(()));
    assert_eq!(transaction.current(), Some(&Transfer::Command(Command::POWER_ON)));
}

#[test]
fn two_waits_in_a_row_each_need_their_own_idle_sample() {
    let mut transaction =
        Transaction::new(vec![Transfer::WaitUntilIdle, Transfer::WaitUntilIdle]);
    assert_eq!(transaction.report(Outcome::<u32>::BusyLine(true)), Ok(()));
    assert_eq!(transaction.current(), Some(&Transfer::WaitUntilIdle));
    assert_eq!(transaction.report(Outcome::<u32>::BusyLine(true)), Ok(()));
    assert_eq!(transaction.current(), None);
}

#[test]
fn a_bus_error_ends_the_transaction_and_comes_back_unchanged() {
    let mut transaction = Transaction::new(vec![
        Transfer::Command(Command::POWER_OFF),
        Transfer::WaitUntilIdle,
        Transfer::Command(Command::DEEP_SLEEP),
    ]);
    assert_eq!(transaction.report(Outcome::Failed("bus fault")), Err("bus fault"));
    assert_eq!(transaction.current(), None);
    assert_eq!(transaction.report(Outcome::<&str>::Completed), Ok(()));
    assert_eq!(transaction.report(Outcome::<&str>::BusyLine(true)), Ok(()));
    assert_eq!(transaction.current(), None);
}

#[test]
fn sleep_on_the_wire() {
    let (epd, _) = GDEW0213I5F::new();
    let mut bench = Bench::new(&[false, true], None);
    assert_eq!(bench.run(epd.sleep()), Ok(()));
    assert_eq!(
        bench.wire,
        vec![
            Wire::CommandByte(0x02),
            Wire::Poll(false),
            Wire::Poll(true),
            Wire::CommandByte(0x07),
            Wire::DataBytes(vec![0xa5]),
        ]
    );
}

#[test]
fn power_on_sequence_on_the_wire() {
    let (_, plan) = GDEW0213I5F::new();
    let mut bench = Bench::new(&[false, false, false, true], None);
    assert_eq!(bench.run(plan), Ok(()));
    assert_eq!(
        bench.wire,
        vec![
            Wire::ResetPulse,
            Wire::CommandByte(0x01),
            Wire::DataBytes(vec![0x03, 0x00, 0x2b, 0x2b, 0x03]),
            Wire::CommandByte(0x06),
            Wire::DataBytes(vec![0x17, 0x17, 0x17]),
            Wire::CommandByte(0x04),
            Wire::Poll(false),
            Wire::Poll(false),
            Wire::Poll(false),
            Wire::Poll(true),
            Wire::CommandByte(0x00),
            Wire::DataBytes(vec![0xbf, 0x0d]),
            Wire::CommandByte(0x30),
            Wire::DataBytes(vec![0x3a]),
            Wire::CommandByte(0x61),
            Wire::DataBytes(vec![104, 0, 212]),
        ]
    );
}

#[test]
fn the_first_bus_error_stops_the_power_on_sequence() {
    let (_, plan) = GDEW0213I5F::new();
    // Writes are numbered from 0: number 4 is the POWER_ON command.
    let mut bench = Bench::new(&[], Some(4));
    assert_eq!(bench.run(plan), Err(77));
    assert_eq!(
        bench.wire,
        vec![
            Wire::ResetPulse,
            Wire::CommandByte(0x01),
            Wire::DataBytes(vec![0x03, 0x00, 0x2b, 0x2b, 0x03]),
            Wire::CommandByte(0x06),
            Wire::DataBytes(vec![0x17, 0x17, 0x17]),
        ]
    );
    assert_eq!(bench.polls, 0);
}

#[test]
fn a_failed_command_keeps_its_parameters_off_the_bus() {
    let (epd, _) = GDEW0213I5F::new();
    // Writes are numbered from 0: number 1 is the DEEP_SLEEP command.
    let mut bench = Bench::new(&[true], Some(1));
    assert_eq!(bench.run(epd.sleep()), Err(77));
    assert_eq!(bench.wire, vec![Wire::CommandByte(0x02), Wire::Poll(true)]);
}

#[test]
fn update_frame_on_the_wire_ends_with_both_planes_and_a_wait() {
    let (mut epd, _) = GDEW0213I5F::new();
    let buffer = vec![0x3cu8; 2756];
    let mut bench = Bench::new(&[false, true], None);
    assert_eq!(bench.run(epd.update_frame(&buffer).unwrap()), Ok(()));
    let n = bench.wire.len();
    assert_eq!(n, 14 + 4 + 2);
    assert_eq!(bench.wire[2], Wire::CommandByte(0x50));
    assert_eq!(bench.wire[3], Wire::DataBytes(vec![0x97]));
    assert_eq!(
        bench.wire[14..],
        [
            Wire::CommandByte(0x10),
            Wire::DataBytes(vec![0xff; 2756]),
            Wire::CommandByte(0x13),
            Wire::DataBytes(buffer),
            Wire::Poll(false),
            Wire::Poll(true),
        ]
    );
}

#[test]
fn quick_refresh_on_the_wire_leaves_partial_mode_before_it_waits() {
    let (mut epd, _) = GDEW0213I5F::new();
    epd.set_lut(Some(RefreshLUT::QUICK));
    let mut bench = Bench::new(&[false, false, true], None);
    assert_eq!(bench.run(epd.display_frame()), Ok(()));
    assert_eq!(
        bench.wire,
        vec![
            Wire::CommandByte(0x12),
            Wire::CommandByte(0x92),
            Wire::Poll(false),
            Wire::Poll(false),
            Wire::Poll(true),
        ]
    );
    assert_eq!(bench.polls, 3);
}
