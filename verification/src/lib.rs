pub mod executer;
