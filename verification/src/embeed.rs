pub mod hex_color;
