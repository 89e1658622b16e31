//! Read-only configuration handed to each component at construction.

use vstd::prelude::*;
use vstd::string::*;

verus! {

/// The whole configuration of the desktop.
#[derive(Debug, Clone)]
pub struct Config {
    pub desktop: DesktopConfig,
    pub applications: ApplicationsConfig,
    pub packages_to_install: Vec<String>,
    pub system: SystemConfig,
}

/// Appearance of the desktop shell.
#[derive(Debug, Clone)]
pub struct DesktopConfig {
    pub wallpaper: String,
    pub font_name: String,
    pub font_size: u16,
    pub theme: String,
}

/// Settings of each built-in application.
#[derive(Debug, Clone)]
pub struct ApplicationsConfig {
    pub file_manager: AppConfig,
    pub package_manager: PackageManagerConfig,
    pub browser: BrowserConfig,
}

/// Settings of the file manager.
#[derive(Debug, Clone)]
pub struct AppConfig {
    pub enabled: bool,
    pub icon: String,
    pub default_path: String,
}

/// Settings of the package manager.
#[derive(Debug, Clone)]
pub struct PackageManagerConfig {
    pub enabled: bool,
    pub icon: String,
    pub backend: String,
}

/// Settings of the browser: its home page and display mode.
#[derive(Debug, Clone)]
pub struct BrowserConfig {
    pub enabled: bool,
    pub icon: String,
    pub homepage: String,
    pub minimal_mode: bool,
}

/// Display settings of the system.
#[derive(Debug, Clone)]
pub struct SystemConfig {
    pub dpi: u32,
    pub vsync: bool,
    pub compositor: bool,
}

impl Default for Config {
    /// The configuration used where none is supplied.
    fn default() -> (r: Config)
        ensures
            r.desktop.wallpaper@ == "/usr/share/backgrounds/default.png"@,
            r.desktop.font_name@ == "Inter"@,
            r.desktop.font_size == 12,
            r.desktop.theme@ == "dark"@,
            r.applications.file_manager.enabled,
            r.applications.file_manager.icon@ == "\u{1F4C1}"@,
            r.applications.file_manager.default_path@ == "/home"@,
            r.applications.package_manager.enabled,
            r.applications.package_manager.icon@ == "\u{1F4E6}"@,
            r.applications.package_manager.backend@ == "apk"@,
            r.applications.browser.enabled,
            r.applications.browser.icon@ == "\u{1F310}"@,
            r.applications.browser.homepage@ == "https://start.duckduckgo.com"@,
            r.applications.browser.minimal_mode,
            r.packages_to_install@.len() == 5,
            r.packages_to_install@[0]@ == "firefox-esr"@,
            r.packages_to_install@[1]@ == "ttf-liberation"@,
            r.packages_to_install@[2]@ == "mesa-gl"@,
            r.packages_to_install@[3]@ == "mesa-dri-gallium"@,
            r.packages_to_install@[4]@ == "xf86-video-vesa"@,
            r.system.dpi == 96,
            r.system.vsync,
            !r.system.compositor,
    {
        Config {
            desktop: DesktopConfig {
                wallpaper: String::from_str("/usr/share/backgrounds/default.png"),
                font_name: String::from_str("Inter"),
                font_size: 12,
                theme: String::from_str("dark"),
            },
            applications: ApplicationsConfig {
                file_manager: AppConfig {
                    enabled: true,
                    icon: String::from_str("\u{1F4C1}"),
                    default_path: String::from_str("/home"),
                },
                package_manager: PackageManagerConfig {
                    enabled: true,
                    icon: String::from_str("\u{1F4E6}"),
                    backend: String::from_str("apk"),
                },
                browser: BrowserConfig {
                    enabled: true,
                    icon: String::from_str("\u{1F310}"),
                    homepage: String::from_str("https://start.duckduckgo.com"),
                    minimal_mode: true,
                },
            },
            packages_to_install: vec![
                String::from_str("firefox-esr"),
                String::from_str("ttf-liberation"),
                String::from_str("mesa-gl"),
                String::from_str("mesa-dri-gallium"),
                String::from_str("xf86-video-vesa"),
            ],
            system: SystemConfig { dpi: 96, vsync: true, compositor: false },
        }
    }
}

} // verus!
