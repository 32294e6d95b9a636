//! Building blocks that the navigators compose: the layered page container
//! and the chrome around pages.
pub mod drawer;
pub mod header;
pub mod pages_container;
pub mod stack_page_wrapper;
pub mod tabs;
