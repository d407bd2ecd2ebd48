# franka

Sessions, control loops and target control for the Franka Control Interface, written in Verus. The
library decides and proves what it decides; nothing in it performs input or output, and nothing in it
computes with floating point numbers.

## How it is used

An operation that talks to the robot is a value. It hands out an action, takes back the event that
came of it, and goes on until it ends with a result:

    let mut operation = robot.set_load(mass, centre, inertia)?;
    loop {
        let event = perform(operation.action());
        match robot.resume(operation, event) {
            Progress::Continue(next, _) => operation = next,
            Progress::Done(result) => break result,
        }
    }

Doubles are held as their bit patterns (`double::Double`). Their order and their classes are
specified on the pattern, and `Double::law_order_is_of_values` proves that this is the order of the
numbers they stand for. Where a decision needs arithmetic, it asks for the numbers by an action.

## Layout

- `src/wire` - byte order, requests, responses, command datagrams, modes.
- `src/robot/robot_impl` - connecting, commands, motions from start to end, control exceptions.
- `src/robot/control_loop` - the callback loop and the conversion of commands.
- `src/robot/active_control.rs` - reading and writing one cycle at a time.
- `src/robot/locked.rs` - operations that hold the control lock, and when it is free again.
- `src/robot/target_control` - the mailbox, the runner and its stop, the joint and pose streams, the
  options, and the decisions of the inverse kinematics.
- `src/control_types.rs`, `src/robot_state.rs`, `src/error.rs`, `src/errors.rs`,
  `src/rate_limiting`, `src/text.rs` - what the rest is made of.
- `tests` - whole operations against a scripted robot, and exact values.
- `app` - sockets, threads, locks, callbacks and the floating point arithmetic around the library.

Proof functions named `law_*` state what holds across functions: that a mailbox never yields a torn
target, that a stop ends at rest on the robot's own echo, that a failed loop aborts its motion, that
the control lock is free whenever nothing runs, that every written number reads back.

## What is trusted

- `zerocopy`: the bytes of a little-endian `u64`, and a `u64` read from eight bytes.
- `std`: `String::from_utf8_lossy`, by name.
- `libc`: the range of `CPU_SETSIZE`.
