//! Opening of windows.

use std::rc::Rc;

use vstd::prelude::*;

use crate::display::{ConfigModel, Display, DisplayModel, TabDragState, UiConfig, WindowOptions};
use crate::effect::{effect_if, effect_models, texts, Effect, EffectModel};
use crate::tab::{fresh_tab, Pty, Tab, TabModel};
use crate::window_context::{tab_models, QueuedEvent, WindowContext, WindowModel};

verus! {

impl<H, E> WindowModel<H, E> {
    /// A window that shows nothing but `tab` and has nothing to do.
    pub open spec fn showing(
        display: DisplayModel,
        config: ConfigModel,
        tab: TabModel<H>,
    ) -> Self {
        WindowModel {
            display,
            dirty: false,
            tab_bar_hidden: false,
            tabs: seq![tab],
            active_tab: 0,
            event_queue: Seq::<QueuedEvent<E>>::empty(),
            hint_highlight_dirty: false,
            occluded: false,
            preserve_title: false,
            drag_state: TabDragState::Idle,
            window_config: Seq::<Seq<char>>::empty(),
            config,
            effects: Seq::<EffectModel>::empty(),
        }
    }

    /// A window that was opened with a new tab.
    pub open spec fn opened(
        display: DisplayModel,
        config: ConfigModel,
        options: WindowOptions,
        tab: TabModel<H>,
    ) -> Self {
        WindowModel {
            preserve_title: options.title is Some,
            ..WindowModel::showing(display, config, tab)
        }.asking(
            effect_if(
                config.cursor_blinking,
                EffectModel::SendCursorBlinkingChange { tab_id: tab.id },
            ),
        )
    }
}

impl<H, E> WindowContext<H, E> {
    /// A window that shows nothing but `tab`.
    fn showing(display: Display, config: Rc<UiConfig>, tab: Tab<H>) -> (r: Self)
        ensures
            r@ == WindowModel::<H, E>::showing(display@, config@, tab@),
    {
        let r = WindowContext {
            display,
            dirty: false,
            tab_bar_hidden: false,
            tabs: vec![tab],
            active_tab: 0,
            event_queue: Vec::new(),
            hint_highlight_dirty: false,
            occluded: false,
            preserve_title: false,
            drag_state: TabDragState::Idle,
            window_config: Vec::new(),
            config,
            effects: Vec::new(),
        };
        assert(tab_models(r.tabs@) =~= seq![tab@]);
        assert(texts(r.window_config@) =~= Seq::<Seq<char>>::empty());
        assert(effect_models(r.effects@) =~= Seq::<EffectModel>::empty());
        r
    }

    /// Create a new terminal window context.
    fn new<R>(
        display: Display,
        config: Rc<UiConfig>,
        options: WindowOptions,
        tab_id: usize,
        pty: Result<Pty<H>, R>,
    ) -> (r: Result<Self, R>)
        requires
            pty is Ok ==> tab_id < usize::MAX,
        ensures
            match pty {
                Ok(pty) => r is Ok && r->Ok_0@ == WindowModel::<H, E>::opened(
                    display@,
                    config@,
                    options,
                    fresh_tab(tab_id, pty),
                ),
                Err(error) => r is Err && r->Err_0 == error,
            },
    {
        let preserve_title: bool = options.title.is_some();
        match Tab::new(tab_id, pty) {
            Ok(first_tab) => {
                let blinking: bool = config.cursor_blinking;
                let first_tab_id: usize = first_tab.id;
                let mut window = Self::showing(display, config, first_tab);
                window.preserve_title = preserve_title;
                // Start cursor blinking, in case the window is not told of the focus on startup.
                if blinking {
                    window.ask(Effect::SendCursorBlinkingChange { tab_id: first_tab_id });
                }
                Ok(window)
            },
            Err(error) => Err(error),
        }
    }

    /// Create initial window context on the display that the bootstrapping of the graphics API led
    /// to, with the PTY that was opened for its first tab.
    pub fn initial<R>(
        display: Display,
        config: Rc<UiConfig>,
        options: WindowOptions,
        tab_id: usize,
        pty: Result<Pty<H>, R>,
    ) -> (r: Result<Self, R>)
        requires
            pty is Ok ==> tab_id < usize::MAX,
        ensures
            match pty {
                Ok(pty) => r is Ok && r->Ok_0@ == WindowModel::<H, E>::opened(
                    display@,
                    config@,
                    options,
                    fresh_tab(tab_id, pty),
                ),
                Err(error) => r is Err && r->Err_0 == error,
            },
    {
        Self::new(display, config, options, tab_id, pty)
    }

    /// Create additional context with the graphics platform other windows are using.
    pub fn additional<R>(
        display: Display,
        config: Rc<UiConfig>,
        options: WindowOptions,
        config_overrides: Vec<String>,
        tab_id: usize,
        pty: Result<Pty<H>, R>,
    ) -> (r: Result<Self, R>)
        requires
            pty is Ok ==> tab_id < usize::MAX,
        ensures
            match pty {
                Ok(pty) => r is Ok && r->Ok_0@ == (WindowModel {
                    window_config: texts(config_overrides@),
                    ..WindowModel::<H, E>::opened(
                        display@,
                        config@,
                        options,
                        fresh_tab(tab_id, pty),
                    )
                }),
                Err(error) => r is Err && r->Err_0 == error,
            },
    {
        match Self::new(display, config, options, tab_id, pty) {
            Ok(window) => {
                // Set the config overrides at startup.
                let mut window = window;
                window.window_config = config_overrides;
                Ok(window)
            },
            Err(error) => Err(error),
        }
    }

    /// Create a new window that starts with an existing tab (used for tab tear-off).
    pub fn additional_with_tab(display: Display, config: Rc<UiConfig>, tab: Tab<H>) -> (r: Self)
        ensures
            r@ == (WindowModel {
                dirty: true,
                ..WindowModel::<H, E>::showing(display@, config@, tab@)
            }).titled_if(config@.dynamic_title, tab@.title),
            r@.tabs == seq![tab@],
            r@.active_tab == 0,
            r@.dirty,
            !r@.preserve_title,
            r@.config == config@,
            r@.window_config.len() == 0,
            r@.display.window.title == if config@.dynamic_title {
                tab@.title
            } else {
                display@.window.title
            },
    {
        let tab_title = tab.title.clone();
        let mut window = Self::showing(display, config, tab);
        window.dirty = true;

        // Set initial window title.
        if window.config.dynamic_title {
            window.set_title(tab_title);
        }
        window
    }
}

} // verus!
