//! Drivers for the JD9853 SPI panel, the AXS5106 touch controller and the
//! QMI8658 motion sensor, with the arithmetic of the demo firmware that uses them.
pub mod bus;
pub mod geometry;
pub mod jd9853;
pub mod axs5106;
pub mod qmi8658;
pub mod touch_demo;
pub mod font_demo;
pub mod qr_demo;
