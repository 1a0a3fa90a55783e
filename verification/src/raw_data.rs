pub mod utilities;
