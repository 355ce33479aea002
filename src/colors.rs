use vstd::prelude::*;

verus! {

/// Background brightness a color scheme is tuned for.
#[derive(Debug, Clone, Copy, PartialEq, Eq, Structural)]
pub enum AppColorScheme {
    Light,
    Dark,
}

/// Terminal color indices (256-color palette) used by the interface.
#[derive(Debug, Clone, Copy, PartialEq, Eq, Structural)]
pub struct AppColors {
    pub main_text_color: u8,
    pub highlight_text_color: u8,
    pub entry_color: u8,
    pub keyword_color: u8,
    pub info_color: u8,
    pub confirm_color: u8,
    pub warn_color: u8,
    pub bar_bg_color: u8,
    pub popup_bg_color: u8,
    pub selected_row_bg_color: u8,
    pub color_scheme: AppColorScheme,
}

/// The palette for dark terminal backgrounds.
pub open spec fn dark_palette() -> AppColors {
    AppColors {
        main_text_color: 250,
        highlight_text_color: 254,
        entry_color: 36,
        keyword_color: 101,
        info_color: 99,
        confirm_color: 47,
        warn_color: 124,
        bar_bg_color: 235,
        popup_bg_color: 234,
        selected_row_bg_color: 237,
        color_scheme: AppColorScheme::Dark,
    }
}

impl Default for AppColors {
    fn default() -> (r: Self)
        ensures
            r == dark_palette(),
    {
        AppColors {
            main_text_color: 250,
            highlight_text_color: 254,
            entry_color: 36,
            keyword_color: 101,
            info_color: 99,
            confirm_color: 47,
            warn_color: 124,
            bar_bg_color: 235,
            popup_bg_color: 234,
            selected_row_bg_color: 237,
            color_scheme: AppColorScheme::Dark,
        }
    }
}

impl AppColors {
    pub fn new() -> (r: Self)
        ensures
            r == dark_palette(),
    {
        Self::default()
    }

    pub fn main_text_color(&mut self, index: u8)
        ensures
            *final(self) == (AppColors { main_text_color: index, ..*old(self) }),
    {
        self.main_text_color = index;
    }

    pub fn highlight_text_color(&mut self, index: u8)
        ensures
            *final(self) == (AppColors { highlight_text_color: index, ..*old(self) }),
    {
        self.highlight_text_color = index;
    }

    pub fn entry_color(&mut self, index: u8)
        ensures
            *final(self) == (AppColors { entry_color: index, ..*old(self) }),
    {
        self.entry_color = index;
    }

    pub fn keyword_color(&mut self, index: u8)
        ensures
            *final(self) == (AppColors { keyword_color: index, ..*old(self) }),
    {
        self.keyword_color = index;
    }

    pub fn info_color(&mut self, index: u8)
        ensures
            *final(self) == (AppColors { info_color: index, ..*old(self) }),
    {
        self.info_color = index;
    }

    pub fn confirm_color(&mut self, index: u8)
        ensures
            *final(self) == (AppColors { confirm_color: index, ..*old(self) }),
    {
        self.confirm_color = index;
    }

    pub fn warn_color(&mut self, index: u8)
        ensures
            *final(self) == (AppColors { warn_color: index, ..*old(self) }),
    {
        self.warn_color = index;
    }

    pub fn bar_bg_color(&mut self, index: u8)
        ensures
            *final(self) == (AppColors { bar_bg_color: index, ..*old(self) }),
    {
        self.bar_bg_color = index;
    }

    pub fn popup_bg_color(&mut self, index: u8)
        ensures
            *final(self) == (AppColors { popup_bg_color: index, ..*old(self) }),
    {
        self.popup_bg_color = index;
    }

    pub fn selected_row_bg_color(&mut self, index: u8)
        ensures
            *final(self) == (AppColors { selected_row_bg_color: index, ..*old(self) }),
    {
        self.selected_row_bg_color = index;
    }

    /// Switches between the light and the dark scheme marker.
    pub fn toggle_color_scheme(&mut self)
        ensures
            final(self).color_scheme == (match old(self).color_scheme {
                AppColorScheme::Light => AppColorScheme::Dark,
                AppColorScheme::Dark => AppColorScheme::Light,
            }),
            *final(self) == (AppColors { color_scheme: final(self).color_scheme, ..*old(self) }),
    {
        match self.color_scheme {
            AppColorScheme::Light => self.color_scheme = AppColorScheme::Dark,
            AppColorScheme::Dark => self.color_scheme = AppColorScheme::Light,
        }
    }

    /// Activates the default palette for light background terminals; the
    /// warning color and the scheme marker are kept.
    pub fn light_colors(&mut self)
        ensures
            *final(self) == (AppColors {
                main_text_color: 235,
                highlight_text_color: 232,
                entry_color: 23,
                keyword_color: 58,
                info_color: 57,
                bar_bg_color: 144,
                popup_bg_color: 187,
                confirm_color: 22,
                selected_row_bg_color: 107,
                ..*old(self)
            }),
    {
        self.main_text_color(235);
        self.highlight_text_color(232);
        self.entry_color(23);
        self.keyword_color(58);
        self.info_color(57);
        self.bar_bg_color(144);
        self.popup_bg_color(187);
        self.confirm_color(22);
        self.selected_row_bg_color(107);
    }
}

} // verus!
