use std::sync::mpsc::Sender;
use vstd::prelude::*;

verus! {

#[verifier::external_type_specification]
#[verifier::external_body]
#[verifier::reject_recursive_types(T)]
pub struct ExSender<T>(Sender<T>);

/// A unit of work for the printing worker.
pub enum Task {
    Println(String),
    Exit,
}

/// Hands tasks to a worker that runs them one after another.
pub struct Executor {
    task_sender: Sender<Task>,
}

/// Relies on `std::sync::mpsc::Sender::send`: it fails only when the receiver is gone,
/// and then gives the unsent value back inside the error.
#[verifier::external_body]
fn send_task(sender: &Sender<Task>, task: Task) -> (r: Result<(), Task>)
    ensures
        r matches Err(t) ==> t == task,
{
    sender.send(task).map_err(|e| e.0)
}

impl Executor {
    /// An executor whose tasks go to the worker listening on the other end of `task_sender`.
    pub fn new(task_sender: Sender<Task>) -> Executor {
        Executor { task_sender }
    }

    /// Queues one line for printing. When the worker has stopped, the line comes back
    /// unsent in `Err`.
    pub fn println(&self, string: String) -> (r: Result<(), String>)
        ensures
            r matches Err(s) ==> s == string,
    {
        match send_task(&self.task_sender, Task::Println(string)) {
            Ok(()) => Ok(()),
            Err(Task::Println(s)) => Err(s),
            Err(Task::Exit) => {
                proof {
                    assert(false);
                }
                Ok(())
            },
        }
    }
}

} // verus!
