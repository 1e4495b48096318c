//! Drawing of a window.
//!
//! A frame takes two steps: the display applies what it still has to apply to its renderer, and
//! then, on the display as it is now, the frame is drawn.

use vstd::prelude::*;

use crate::display::TabDragState;
use crate::effect::{effect_if, texts, Effect, EffectModel, Frame, FrameModel};
use crate::window_context::{tab_titles, WindowContext, WindowModel};

verus! {

impl<H, E> WindowModel<H, E> {
    /// Whether the active tab's terminal has the size of the display.
    pub open spec fn active_fits(self) -> bool {
        &&& self.active().terminal.columns == self.display.size_info.columns
        &&& self.active().terminal.screen_lines == self.display.size_info.screen_lines
    }

    /// What is asked for to give the active tab's terminal the size of the display.
    pub open spec fn fitting_effects(self) -> Seq<EffectModel> {
        if self.active_fits() {
            seq![]
        } else {
            seq![
                EffectModel::NotifyResize { tab: self.active_tab, size: self.display.size_info },
                EffectModel::ResizeTerminal { tab: self.active_tab, size: self.display.size_info },
            ]
        }
    }

    /// The window once the active tab's terminal has the size of the display.
    pub open spec fn fitted(self) -> Self {
        WindowModel {
            tabs: self.tabs.update(
                self.active_tab,
                self.active().with_size(
                    self.display.size_info.columns,
                    self.display.size_info.screen_lines,
                ),
            ),
            ..self
        }.asking(self.fitting_effects())
    }

    /// The frame that shows the active tab.
    pub open spec fn frame(self) -> FrameModel {
        FrameModel {
            tab_titles: tab_titles(self.tabs),
            active_tab: self.active_tab,
            tab_bar_hidden: self.tab_bar_hidden,
            drag: match self.drag_state {
                TabDragState::Dragging { tab_index, current_x } => Some((tab_index, current_x)),
                TabDragState::Idle => None,
            },
        }
    }

    /// The window with its display about to be prepared for a frame, unless nothing of it can be
    /// seen.
    pub open spec fn draw_begun(self) -> Self {
        if self.occluded {
            self.asking(seq![EffectModel::ClearRedrawRequest])
        } else {
            WindowModel { dirty: false, ..self }.asking(
                seq![EffectModel::ClearRedrawRequest, EffectModel::ProcessRendererUpdate],
            )
        }
    }

    /// The window with the next frame provided for. A bell that still shows needs one: it is asked
    /// for at once, or as soon as the platform is ready for it.
    pub open spec fn bell_handled(self, bell_completed: bool) -> Self {
        let has_frame = self.display.window.has_frame;
        WindowModel { dirty: self.dirty || !bell_completed && !has_frame, ..self }.asking(
            effect_if(!bell_completed && has_frame, EffectModel::RequestRedraw),
        )
    }

    /// The window after its active tab was drawn, in a terminal that has the size of the display.
    pub open spec fn tab_drawn(self) -> Self {
        self.fitted().asking(
            effect_if(
                !self.active_fits(),
                EffectModel::ResizeDamage { size: self.display.size_info },
            ) + seq![EffectModel::DrawFrame { frame: self.frame() }],
        )
    }

    /// The window after a frame was drawn on the display that was prepared for it.
    pub open spec fn frame_drawn(self, bell_completed: bool) -> Self {
        self.bell_handled(bell_completed).tab_drawn()
    }

    /// The window after both steps of a frame, by which the display has not changed what the window
    /// knows of it.
    pub open spec fn drawn(self, bell_completed: bool) -> Self {
        if self.occluded {
            self.draw_begun()
        } else {
            self.draw_begun().frame_drawn(bell_completed)
        }
    }
}

impl<H, E> WindowContext<H, E> {
    /// Titles of the tabs, from left to right.
    pub(crate) fn titles(&self) -> (r: Vec<String>)
        ensures
            texts(r@) == tab_titles(self@.tabs),
    {
        let mut r: Vec<String> = Vec::new();
        let mut i: usize = 0;
        while i < self.tabs.len()
            invariant
                i <= self.tabs.len(),
                r.len() == i,
                forall|j: int| 0 <= j < i ==> #[trigger] r@[j]@ == self@.tabs[j].title,
            decreases self.tabs.len() - i,
        {
            r.push(self.tabs[i].title.clone());
            i += 1;
        }
        assert(texts(r@) =~= tab_titles(self@.tabs));
        r
    }

    /// Gives the active tab's terminal the size of the display. Returns whether it had another.
    pub(crate) fn fit_active_terminal(&mut self) -> (r: bool)
        requires
            old(self)@.has_active_tab(),
        ensures
            r == !old(self)@.active_fits(),
            final(self)@ == old(self)@.fitted(),
    {
        let tab: usize = self.active_tab;
        let size = self.display.size_info;
        let terminal = self.tabs[tab].terminal;
        if terminal.screen_lines != size.screen_lines || terminal.columns != size.columns {
            self.tabs[tab].terminal.screen_lines = size.screen_lines;
            self.tabs[tab].terminal.columns = size.columns;
            self.ask(Effect::NotifyResize { tab, size });
            self.ask(Effect::ResizeTerminal { tab, size });
            assert(self@.tabs =~= old(self)@.fitted().tabs);
            assert(self@.effects =~= old(self)@.fitted().effects);
            true
        } else {
            assert(self@.tabs =~= old(self)@.fitted().tabs);
            assert(self@.effects =~= old(self)@.fitted().effects);
            false
        }
    }

    /// Draw the window. Returns whether a frame is to be drawn; then the display is prepared, and
    /// [`WindowContext::draw_frame`] draws it.
    pub fn draw(&mut self) -> (r: bool)
        ensures
            r == !old(self)@.occluded,
            final(self)@ == old(self)@.draw_begun(),
    {
        self.ask(Effect::ClearRedrawRequest);
        if self.occluded {
            return false;
        }
        self.dirty = false;

        // Force the display to process any pending display update.
        self.ask(Effect::ProcessRendererUpdate);
        assert(self@.effects =~= old(self)@.draw_begun().effects);
        true
    }

    /// Provides for the next frame, while the visual bell shows.
    fn handle_bell(&mut self, bell_completed: bool)
        ensures
            final(self)@ == old(self)@.bell_handled(bell_completed),
    {
        // Request immediate re-draw if visual bell animation is not finished yet.
        if !bell_completed {
            if self.display.window.has_frame {
                self.ask(Effect::RequestRedraw);
            } else {
                self.dirty = true;
            }
        }
        assert(self@.effects =~= old(self)@.bell_handled(bell_completed).effects);
    }

    /// Draws the active tab.
    fn draw_tab(&mut self)
        requires
            old(self)@.has_active_tab(),
        ensures
            final(self)@ == old(self)@.tab_drawn(),
    {
        let tab_titles = self.titles();
        let drag: Option<(usize, u64)> = match self.drag_state {
            TabDragState::Dragging { tab_index, current_x } => Some((tab_index, current_x)),
            TabDragState::Idle => None,
        };

        // A terminal of another size would report damage on lines that the display does not have.
        if self.fit_active_terminal() {
            self.ask(Effect::ResizeDamage { size: self.display.size_info });
        }
        let frame = Frame {
            tab_titles,
            active_tab: self.active_tab,
            tab_bar_hidden: self.tab_bar_hidden,
            drag,
        };
        assert(frame@ == old(self)@.frame());
        self.ask(Effect::DrawFrame { frame });
        assert(self@.effects =~= old(self)@.tab_drawn().effects);
    }

    /// Goes on with a frame, once the display is prepared. `bell_completed` tells whether the visual
    /// bell has ceased to show.
    pub fn draw_frame(&mut self, bell_completed: bool)
        requires
            old(self)@.has_active_tab(),
        ensures
            final(self)@ == old(self)@.frame_drawn(bell_completed),
    {
        self.handle_bell(bell_completed);
        self.draw_tab();
    }
}

} // verus!
