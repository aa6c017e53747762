//! Execution core of a data-oriented runtime: systems declare which parts of
//! a shared world they read and write, a scheduler consults those declarations
//! to decide what may run concurrently, and invocation exchanges an access
//! token for concrete parameter values while tracking a wrapping change
//! counter.

pub mod access;
pub mod cell;
pub mod function_system;
pub mod meta;
pub mod param;
pub mod state;
pub mod system;
pub mod world;

pub use access::Access;
pub use access::AccessView;
pub use cell::SemiSafeCell;
pub use function_system::AlreadyWasSystem;
pub use function_system::FunctionSystem;
pub use function_system::In;
pub use function_system::IncrementSlot;
pub use function_system::ReadSlotValue;
pub use function_system::SquareInput;
pub use function_system::InputMarker;
pub use function_system::IntoSystem;
pub use function_system::IsFunctionSystem;
pub use function_system::SystemParamFunction;
pub use meta::SystemMeta;
pub use meta::SystemMetaView;
pub use param::EmptyParam;
pub use param::ParamPair;
pub use param::ReadSlot;
pub use param::SystemParamState;
pub use param::WriteSlot;
pub use state::SystemState;
pub use system::System;
pub use world::Archetype;
pub use world::ArchetypeGeneration;
pub use world::World;
pub use world::WorldView;
