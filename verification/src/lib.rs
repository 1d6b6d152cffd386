//! A pipeline runner for git hooks.
//!
//! On a push, the hook hands over the old and the new revision and the
//! name of the ref. From these the library resolves the event (`repo`),
//! decides which pipelines the push sets off (`trigger`), composes the
//! environment of each action (`envs`, `vars`), and works out what each
//! action is to run or to send (`actions`). The run itself (`pipeline`)
//! takes the pipelines and their actions in order, ends at the first
//! failure, and gives the workspace up again however it ends (`safety`).
//!
//! The library touches nothing outside itself: it reads no file, starts
//! no process and sends no request. It says what is to be done, and a
//! driver does it and reports back.

pub mod actions;
pub mod decode;
pub mod envs;
pub mod error;
pub mod helper;
pub mod pipeline;
pub mod repo;
pub mod safety;
pub mod text;
pub mod trigger;
pub mod vars;
