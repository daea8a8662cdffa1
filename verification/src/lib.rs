mod channel;
mod task;
mod task_error;
mod task_func;

pub use task::completion_value;
pub use task::Task;
pub use task_error::debug_quoted;
pub use task_error::spec_code_text;
pub use task_error::spec_message_for;
pub use task_error::TaskError;
pub use task_error::TaskErrorCode;
pub use task_func::TaskFunc;
