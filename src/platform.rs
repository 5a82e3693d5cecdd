//! Settings of the platforms' webview engines.
use vstd::prelude::*;

verus! {

/// Settings of the Windows webview engine; a setting left unset keeps the engine's default.
#[derive(Clone, Debug)]
pub struct PlatformOptions {
    browser_accelerator_keys: Option<bool>,
    built_in_error_page: Option<bool>,
    default_context_menus: Option<bool>,
    default_script_dialogs: Option<bool>,
    dev_tools: Option<bool>,
    general_autofill: Option<bool>,
    host_objects: Option<bool>,
    password_autosave: Option<bool>,
    pinch_zoom: Option<bool>,
    script: Option<bool>,
    swipe_navigation: Option<bool>,
    web_message: Option<bool>,
    zoom_control: Option<bool>,
}

/// The settings that [`PlatformOptions`] holds, one per field.
pub struct PlatformSettings {
    pub browser_accelerator_keys: Option<bool>,
    pub built_in_error_page: Option<bool>,
    pub default_context_menus: Option<bool>,
    pub default_script_dialogs: Option<bool>,
    pub dev_tools: Option<bool>,
    pub general_autofill: Option<bool>,
    pub host_objects: Option<bool>,
    pub password_autosave: Option<bool>,
    pub pinch_zoom: Option<bool>,
    pub script: Option<bool>,
    pub swipe_navigation: Option<bool>,
    pub web_message: Option<bool>,
    pub zoom_control: Option<bool>,
}

/// A setting of the Windows webview engine.
#[derive(Clone, Copy, Debug, PartialEq, Eq, Structural, Hash)]
pub enum WebviewSetting {
    BuiltInErrorPage,
    DefaultContextMenus,
    DefaultScriptDialogs,
    DevTools,
    HostObjects,
    Script,
    WebMessage,
    ZoomControl,
    BrowserAcceleratorKeys,
    GeneralAutofill,
    PasswordAutosave,
    PinchZoom,
    SwipeNavigation,
}

/// The setting `kind` with its value, when it is set.
pub open spec fn setting_entry(kind: WebviewSetting, value: Option<bool>) -> Seq<(WebviewSetting, bool)> {
    match value {
        Some(enabled) => seq![(kind, enabled)],
        None => Seq::empty(),
    }
}

/// The settings to apply to a webview, in the order in which they are applied.
pub open spec fn settings_to_apply(s: PlatformSettings) -> Seq<(WebviewSetting, bool)> {
    setting_entry(WebviewSetting::BuiltInErrorPage, s.built_in_error_page)
        + setting_entry(WebviewSetting::DefaultContextMenus, s.default_context_menus)
        + setting_entry(WebviewSetting::DefaultScriptDialogs, s.default_script_dialogs)
        + setting_entry(WebviewSetting::DevTools, s.dev_tools)
        + setting_entry(WebviewSetting::HostObjects, s.host_objects)
        + setting_entry(WebviewSetting::Script, s.script)
        + setting_entry(WebviewSetting::WebMessage, s.web_message)
        + setting_entry(WebviewSetting::ZoomControl, s.zoom_control)
        + setting_entry(WebviewSetting::BrowserAcceleratorKeys, s.browser_accelerator_keys)
        + setting_entry(WebviewSetting::GeneralAutofill, s.general_autofill)
        + setting_entry(WebviewSetting::PasswordAutosave, s.password_autosave)
        + setting_entry(WebviewSetting::PinchZoom, s.pinch_zoom)
        + setting_entry(WebviewSetting::SwipeNavigation, s.swipe_navigation)
}

fn push_setting(
    settings: &mut Vec<(WebviewSetting, bool)>,
    kind: WebviewSetting,
    value: Option<bool>,
)
    ensures
        final(settings)@ == old(settings)@ + setting_entry(kind, value),
{
    if let Some(enabled) = value {
        settings.push((kind, enabled));
    }
    assert(settings@ =~= old(settings)@ + setting_entry(kind, value));
}

impl View for PlatformOptions {
    type V = PlatformSettings;

    closed spec fn view(&self) -> PlatformSettings {
        PlatformSettings {
            browser_accelerator_keys: self.browser_accelerator_keys,
            built_in_error_page: self.built_in_error_page,
            default_context_menus: self.default_context_menus,
            default_script_dialogs: self.default_script_dialogs,
            dev_tools: self.dev_tools,
            general_autofill: self.general_autofill,
            host_objects: self.host_objects,
            password_autosave: self.password_autosave,
            pinch_zoom: self.pinch_zoom,
            script: self.script,
            swipe_navigation: self.swipe_navigation,
            web_message: self.web_message,
            zoom_control: self.zoom_control,
        }
    }
}

impl Default for PlatformOptions {
    fn default() -> (r: PlatformOptions)
        ensures
            r@.browser_accelerator_keys is None,
            r@.built_in_error_page is None,
            r@.default_context_menus is None,
            r@.default_script_dialogs is None,
            r@.dev_tools is None,
            r@.general_autofill is None,
            r@.host_objects is None,
            r@.password_autosave is None,
            r@.pinch_zoom is None,
            r@.script is None,
            r@.swipe_navigation is None,
            r@.web_message is None,
            r@.zoom_control is None,
    {
        PlatformOptions {
            browser_accelerator_keys: None,
            built_in_error_page: None,
            default_context_menus: None,
            default_script_dialogs: None,
            dev_tools: None,
            general_autofill: None,
            host_objects: None,
            password_autosave: None,
            pinch_zoom: None,
            script: None,
            swipe_navigation: None,
            web_message: None,
            zoom_control: None,
        }
    }
}

impl PlatformOptions {
    /// The settings that are set, with their values, in the order in which a webview gets
    /// them; the settings left unset keep the engine's defaults.
    pub fn settings(&self) -> (r: Vec<(WebviewSetting, bool)>)
        ensures
            r@ == settings_to_apply(self@),
    {
        let mut settings: Vec<(WebviewSetting, bool)> = Vec::new();
        push_setting(&mut settings, WebviewSetting::BuiltInErrorPage, self.built_in_error_page);
        push_setting(&mut settings, WebviewSetting::DefaultContextMenus, self.default_context_menus);
        push_setting(&mut settings, WebviewSetting::DefaultScriptDialogs, self.default_script_dialogs);
        push_setting(&mut settings, WebviewSetting::DevTools, self.dev_tools);
        push_setting(&mut settings, WebviewSetting::HostObjects, self.host_objects);
        push_setting(&mut settings, WebviewSetting::Script, self.script);
        push_setting(&mut settings, WebviewSetting::WebMessage, self.web_message);
        push_setting(&mut settings, WebviewSetting::ZoomControl, self.zoom_control);
        push_setting(&mut settings, WebviewSetting::BrowserAcceleratorKeys, self.browser_accelerator_keys);
        push_setting(&mut settings, WebviewSetting::GeneralAutofill, self.general_autofill);
        push_setting(&mut settings, WebviewSetting::PasswordAutosave, self.password_autosave);
        push_setting(&mut settings, WebviewSetting::PinchZoom, self.pinch_zoom);
        push_setting(&mut settings, WebviewSetting::SwipeNavigation, self.swipe_navigation);
        assert(settings@ =~= settings_to_apply(self@));
        settings
    }

    /// Options with every setting unset.
    pub fn new() -> (r: PlatformOptions)
        ensures
            r@.browser_accelerator_keys is None,
            r@.built_in_error_page is None,
            r@.default_context_menus is None,
            r@.default_script_dialogs is None,
            r@.dev_tools is None,
            r@.general_autofill is None,
            r@.host_objects is None,
            r@.password_autosave is None,
            r@.pinch_zoom is None,
            r@.script is None,
            r@.swipe_navigation is None,
            r@.web_message is None,
            r@.zoom_control is None,
    {
        Self::default()
    }

    /// Determines whether browser-specific accelerator keys are enabled.
    #[must_use]
    pub fn browser_accelerator_keys(self, enabled: bool) -> (r: PlatformOptions)
        ensures
            r@.browser_accelerator_keys == Some(enabled),
            r@.built_in_error_page == self@.built_in_error_page,
            r@.default_context_menus == self@.default_context_menus,
            r@.default_script_dialogs == self@.default_script_dialogs,
            r@.dev_tools == self@.dev_tools,
            r@.general_autofill == self@.general_autofill,
            r@.host_objects == self@.host_objects,
            r@.password_autosave == self@.password_autosave,
            r@.pinch_zoom == self@.pinch_zoom,
            r@.script == self@.script,
            r@.swipe_navigation == self@.swipe_navigation,
            r@.web_message == self@.web_message,
            r@.zoom_control == self@.zoom_control,
    {
        let mut options = self;
        options.browser_accelerator_keys = Some(enabled);
        options
    }

    /// Determines whether to disable built in error page for navigation failure and render process failure.
    #[must_use]
    pub fn built_in_error_page(self, enabled: bool) -> (r: PlatformOptions)
        ensures
            r@.built_in_error_page == Some(enabled),
            r@.browser_accelerator_keys == self@.browser_accelerator_keys,
            r@.default_context_menus == self@.default_context_menus,
            r@.default_script_dialogs == self@.default_script_dialogs,
            r@.dev_tools == self@.dev_tools,
            r@.general_autofill == self@.general_autofill,
            r@.host_objects == self@.host_objects,
            r@.password_autosave == self@.password_autosave,
            r@.pinch_zoom == self@.pinch_zoom,
            r@.script == self@.script,
            r@.swipe_navigation == self@.swipe_navigation,
            r@.web_message == self@.web_message,
            r@.zoom_control == self@.zoom_control,
    {
        let mut options = self;
        options.built_in_error_page = Some(enabled);
        options
    }

    /// Determines whether the default context menus are shown to the user in WebView.
    #[must_use]
    pub fn default_context_menus(self, enabled: bool) -> (r: PlatformOptions)
        ensures
            r@.default_context_menus == Some(enabled),
            r@.browser_accelerator_keys == self@.browser_accelerator_keys,
            r@.built_in_error_page == self@.built_in_error_page,
            r@.default_script_dialogs == self@.default_script_dialogs,
            r@.dev_tools == self@.dev_tools,
            r@.general_autofill == self@.general_autofill,
            r@.host_objects == self@.host_objects,
            r@.password_autosave == self@.password_autosave,
            r@.pinch_zoom == self@.pinch_zoom,
            r@.script == self@.script,
            r@.swipe_navigation == self@.swipe_navigation,
            r@.web_message == self@.web_message,
            r@.zoom_control == self@.zoom_control,
    {
        let mut options = self;
        options.default_context_menus = Some(enabled);
        options
    }

    /// Determines whether WebView renders the default JavaScript dialog box.
    #[must_use]
    pub fn default_script_dialogs(self, enabled: bool) -> (r: PlatformOptions)
        ensures
            r@.default_script_dialogs == Some(enabled),
            r@.browser_accelerator_keys == self@.browser_accelerator_keys,
            r@.built_in_error_page == self@.built_in_error_page,
            r@.default_context_menus == self@.default_context_menus,
            r@.dev_tools == self@.dev_tools,
            r@.general_autofill == self@.general_autofill,
            r@.host_objects == self@.host_objects,
            r@.password_autosave == self@.password_autosave,
            r@.pinch_zoom == self@.pinch_zoom,
            r@.script == self@.script,
            r@.swipe_navigation == self@.swipe_navigation,
            r@.web_message == self@.web_message,
            r@.zoom_control == self@.zoom_control,
    {
        let mut options = self;
        options.default_script_dialogs = Some(enabled);
        options
    }

    /// Determines whether the user is able to use the context menu or keyboard shortcuts to open the DevTools window.
    #[must_use]
    pub fn dev_tools(self, enabled: bool) -> (r: PlatformOptions)
        ensures
            r@.dev_tools == Some(enabled),
            r@.browser_accelerator_keys == self@.browser_accelerator_keys,
            r@.built_in_error_page == self@.built_in_error_page,
            r@.default_context_menus == self@.default_context_menus,
            r@.default_script_dialogs == self@.default_script_dialogs,
            r@.general_autofill == self@.general_autofill,
            r@.host_objects == self@.host_objects,
            r@.password_autosave == self@.password_autosave,
            r@.pinch_zoom == self@.pinch_zoom,
            r@.script == self@.script,
            r@.swipe_navigation == self@.swipe_navigation,
            r@.web_message == self@.web_message,
            r@.zoom_control == self@.zoom_control,
    {
        let mut options = self;
        options.dev_tools = Some(enabled);
        options
    }

    /// Determines whether general form information will be saved and autofilled.
    #[must_use]
    pub fn general_autofill(self, enabled: bool) -> (r: PlatformOptions)
        ensures
            r@.general_autofill == Some(enabled),
            r@.browser_accelerator_keys == self@.browser_accelerator_keys,
            r@.built_in_error_page == self@.built_in_error_page,
            r@.default_context_menus == self@.default_context_menus,
            r@.default_script_dialogs == self@.default_script_dialogs,
            r@.dev_tools == self@.dev_tools,
            r@.host_objects == self@.host_objects,
            r@.password_autosave == self@.password_autosave,
            r@.pinch_zoom == self@.pinch_zoom,
            r@.script == self@.script,
            r@.swipe_navigation == self@.swipe_navigation,
            r@.web_message == self@.web_message,
            r@.zoom_control == self@.zoom_control,
    {
        let mut options = self;
        options.general_autofill = Some(enabled);
        options
    }

    /// Determines whether host objects are accessible from the page in WebView.
    #[must_use]
    pub fn host_objects(self, enabled: bool) -> (r: PlatformOptions)
        ensures
            r@.host_objects == Some(enabled),
            r@.browser_accelerator_keys == self@.browser_accelerator_keys,
            r@.built_in_error_page == self@.built_in_error_page,
            r@.default_context_menus == self@.default_context_menus,
            r@.default_script_dialogs == self@.default_script_dialogs,
            r@.dev_tools == self@.dev_tools,
            r@.general_autofill == self@.general_autofill,
            r@.password_autosave == self@.password_autosave,
            r@.pinch_zoom == self@.pinch_zoom,
            r@.script == self@.script,
            r@.swipe_navigation == self@.swipe_navigation,
            r@.web_message == self@.web_message,
            r@.zoom_control == self@.zoom_control,
    {
        let mut options = self;
        options.host_objects = Some(enabled);
        options
    }

    /// Determines whether password information will be autosaved.
    #[must_use]
    pub fn password_autosave(self, enabled: bool) -> (r: PlatformOptions)
        ensures
            r@.password_autosave == Some(enabled),
            r@.browser_accelerator_keys == self@.browser_accelerator_keys,
            r@.built_in_error_page == self@.built_in_error_page,
            r@.default_context_menus == self@.default_context_menus,
            r@.default_script_dialogs == self@.default_script_dialogs,
            r@.dev_tools == self@.dev_tools,
            r@.general_autofill == self@.general_autofill,
            r@.host_objects == self@.host_objects,
            r@.pinch_zoom == self@.pinch_zoom,
            r@.script == self@.script,
            r@.swipe_navigation == self@.swipe_navigation,
            r@.web_message == self@.web_message,
            r@.zoom_control == self@.zoom_control,
    {
        let mut options = self;
        options.password_autosave = Some(enabled);
        options
    }

    /// Determines the ability of the end users to use pinching motions on touch input enabled devices to scale the web content in the WebView.
    #[must_use]
    pub fn pinch_zoom(self, enabled: bool) -> (r: PlatformOptions)
        ensures
            r@.pinch_zoom == Some(enabled),
            r@.browser_accelerator_keys == self@.browser_accelerator_keys,
            r@.built_in_error_page == self@.built_in_error_page,
            r@.default_context_menus == self@.default_context_menus,
            r@.default_script_dialogs == self@.default_script_dialogs,
            r@.dev_tools == self@.dev_tools,
            r@.general_autofill == self@.general_autofill,
            r@.host_objects == self@.host_objects,
            r@.password_autosave == self@.password_autosave,
            r@.script == self@.script,
            r@.swipe_navigation == self@.swipe_navigation,
            r@.web_message == self@.web_message,
            r@.zoom_control == self@.zoom_control,
    {
        let mut options = self;
        options.pinch_zoom = Some(enabled);
        options
    }

    /// Determines whether running JavaScript is enabled in all future navigations in the WebView.
    #[must_use]
    pub fn script(self, enabled: bool) -> (r: PlatformOptions)
        ensures
            r@.script == Some(enabled),
            r@.browser_accelerator_keys == self@.browser_accelerator_keys,
            r@.built_in_error_page == self@.built_in_error_page,
            r@.default_context_menus == self@.default_context_menus,
            r@.default_script_dialogs == self@.default_script_dialogs,
            r@.dev_tools == self@.dev_tools,
            r@.general_autofill == self@.general_autofill,
            r@.host_objects == self@.host_objects,
            r@.password_autosave == self@.password_autosave,
            r@.pinch_zoom == self@.pinch_zoom,
            r@.swipe_navigation == self@.swipe_navigation,
            r@.web_message == self@.web_message,
            r@.zoom_control == self@.zoom_control,
    {
        let mut options = self;
        options.script = Some(enabled);
        options
    }

    /// Determines whether the end user can use swiping gesture on touch input enabled devices to navigate in the WebView.
    #[must_use]
    pub fn swipe_navigation(self, enabled: bool) -> (r: PlatformOptions)
        ensures
            r@.swipe_navigation == Some(enabled),
            r@.browser_accelerator_keys == self@.browser_accelerator_keys,
            r@.built_in_error_page == self@.built_in_error_page,
            r@.default_context_menus == self@.default_context_menus,
            r@.default_script_dialogs == self@.default_script_dialogs,
            r@.dev_tools == self@.dev_tools,
            r@.general_autofill == self@.general_autofill,
            r@.host_objects == self@.host_objects,
            r@.password_autosave == self@.password_autosave,
            r@.pinch_zoom == self@.pinch_zoom,
            r@.script == self@.script,
            r@.web_message == self@.web_message,
            r@.zoom_control == self@.zoom_control,
    {
        let mut options = self;
        options.swipe_navigation = Some(enabled);
        options
    }

    /// Determines whether communication from the host to the top-level HTML document of the WebView is allowed.
    #[must_use]
    pub fn web_message(self, enabled: bool) -> (r: PlatformOptions)
        ensures
            r@.web_message == Some(enabled),
            r@.browser_accelerator_keys == self@.browser_accelerator_keys,
            r@.built_in_error_page == self@.built_in_error_page,
            r@.default_context_menus == self@.default_context_menus,
            r@.default_script_dialogs == self@.default_script_dialogs,
            r@.dev_tools == self@.dev_tools,
            r@.general_autofill == self@.general_autofill,
            r@.host_objects == self@.host_objects,
            r@.password_autosave == self@.password_autosave,
            r@.pinch_zoom == self@.pinch_zoom,
            r@.script == self@.script,
            r@.swipe_navigation == self@.swipe_navigation,
            r@.zoom_control == self@.zoom_control,
    {
        let mut options = self;
        options.web_message = Some(enabled);
        options
    }

    /// Determines whether the user is able to impact the zoom of the WebView.
    #[must_use]
    pub fn zoom_control(self, enabled: bool) -> (r: PlatformOptions)
        ensures
            r@.zoom_control == Some(enabled),
            r@.browser_accelerator_keys == self@.browser_accelerator_keys,
            r@.built_in_error_page == self@.built_in_error_page,
            r@.default_context_menus == self@.default_context_menus,
            r@.default_script_dialogs == self@.default_script_dialogs,
            r@.dev_tools == self@.dev_tools,
            r@.general_autofill == self@.general_autofill,
            r@.host_objects == self@.host_objects,
            r@.password_autosave == self@.password_autosave,
            r@.pinch_zoom == self@.pinch_zoom,
            r@.script == self@.script,
            r@.swipe_navigation == self@.swipe_navigation,
            r@.web_message == self@.web_message,
    {
        let mut options = self;
        options.zoom_control = Some(enabled);
        options
    }
}

/// Settings of the WebKit webview engine.
#[derive(Clone, Debug)]
pub struct WebkitOptions {
    /// Determine whether pressing a link displays a preview of the destination for the link.
    pub allows_link_preview: bool,
}

impl Default for WebkitOptions {
    fn default() -> (r: WebkitOptions)
        ensures
            !r.allows_link_preview,
    {
        WebkitOptions { allows_link_preview: false }
    }
}

} // verus!
