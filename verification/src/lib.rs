//! The MidAS input core: a verified cooperative scheduler and the
//! interrupt-to-task event path that feeds it.
//!
//! Raw scancode bytes travel from the interrupt handler through a bounded
//! queue ([`EventQueue`]) and a single-slot wake cell ([`WakeCell`]) to the
//! one long-lived keyboard task, which decodes them and routes every key to
//! the consumer that currently owns the focus ([`InputTarget`]).  The
//! executor ([`Executor`]) owns all tasks, drains a ready-queue of task
//! identifiers, and tells its caller when the processor may halt.  The
//! modules around the core model the command line, the graphics page
//! navigation, and the other small pieces the tasks feed.

pub mod application;
pub mod executor;
pub mod keyboard;
pub mod os_info;
pub mod qemu;
pub mod queue;
pub mod random;
pub mod ready;
pub mod router;
pub mod shell;
pub mod stream;
pub mod task;
pub mod vga;
pub mod wake;

pub use application::Application;
pub use executor::{
    Executor, PushOutcome, SpawnError, StepResult, WakerHandle, lemma_registered_iff_not_completed,
    push_byte, suspend_wake_cycles,
};
pub use keyboard::{
    Decoder, KeyInput, RawInput, add_byte_of, decoder_add_byte, decoder_new,
    decoder_process_event, process_of,
};
pub use qemu::QemuExitCode;
pub use queue::{
    Empty, EventQueue, Full, QueueLog, QueueOp, lemma_queue_conservation, lemma_queue_fifo,
    offered_bytes, queue_empty_log, queue_op_model, queue_run_model,
};
pub use random::{generate_rnd, generate_rnd_rng};
pub use ready::ReadyQueue;
pub use router::{InputTarget, RouteAction, route_key, route_spec, routed_under};
pub use shell::{
    BACKSPACE_BYTE, Command, LINE_CAPACITY, LineBuffer, ParsedLine, Shell, ShellEffect,
    add_command, cmd_show_intro, fold_backspaces, get_command_prefix, handle_action, init,
    is_active,
    process_command, process_model, rename_device, show_intro, split_spaces, uninit, until_nul,
    vga_graphics,
};
pub use stream::{EventSource, ScancodeStream, StreamPoll};
pub use task::{
    ConsumerJob, Job, KeypressJob, Task, TaskId, TaskPoll, decode_route_fold, decode_route_step,
};
pub use vga::{
    COLOR_COUNT, Color, ColorCode, GraphicsAction, GraphicsNav, Page, PageRegistry, add_page,
    calculate_centered_rect, centered_text_x, centered_text_y, color_number, register_key,
};
pub use wake::{WakeCell, fire_model, lemma_no_lost_wakeup, register_model};
