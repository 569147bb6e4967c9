//! Which command goes to whom.

use crate::command::WindowCommand;
use crate::manager::ServeAction;
use crate::manager::WindowManager;
use vstd::prelude::*;

verus! {

/// The order to start starts the terminal application where it has not been, and never again;
/// service goes on as before.
pub proof fn init_starts_the_terminal_once(manager: WindowManager)
    ensures
        ({
            let init = Ok::<WindowCommand, ()>(WindowCommand::Init());
            let after = manager.after(init);
            &&& !manager.terminal_started ==> manager.action(init) is StartTerminal
            &&& manager.terminal_started ==> manager.action(init) is Nothing
            &&& after.terminal_started
            &&& after.keep_running == manager.keep_running
            &&& after.action(init) is Nothing
        }),
{
}

/// The order to stop ends the service, and does nothing else.
pub proof fn shutdown_only_ends_the_service(manager: WindowManager)
    ensures
        ({
            let shutdown = Ok::<WindowCommand, ()>(WindowCommand::Shutdown());
            &&& manager.action(shutdown) is Nothing
            &&& !manager.after(shutdown).keep_running
            &&& manager.after(shutdown).terminal_started == manager.terminal_started
        }),
{
}

/// Every other command is handed on as it is, whether or not the terminal application has been
/// started, and leaves the manager as it was.
pub proof fn other_commands_are_handed_on(manager: WindowManager, command: WindowCommand)
    requires
        !(command is Init),
        !(command is Shutdown),
    ensures
        manager.action(Ok(command)) == ServeAction::Forward(command),
        manager.after(Ok(command)) == manager,
{
}

/// A read without a command changes nothing.
pub proof fn a_failed_read_changes_nothing(manager: WindowManager)
    ensures
        manager.action(Err(())) is Nothing,
        manager.after(Err(())) == manager,
{
}

/// A pipe has room for fifty messages, whatever is sent through it.
pub proof fn a_pipe_has_room_for_fifty()
    ensures
        crate::pipe::PIPE_CAPACITY == 50,
{
}

} // verus!
