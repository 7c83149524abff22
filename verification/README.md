# termfinder

A terminal file manager with mouse support: a trail of the directories from
the root to the one being browsed, a row of panes listing directories, a
preview of the selected file, and a prompt bar. Colours come from
`~/.config/termfinder/termfinder.toml`.

The crate is split in two.

* `src/` is the library, written in Verus and verified: the layout of the
  screen, the panes and their scrolling and selection, the trail and which of
  its names lies under the pointer, the colour configuration, the prompt, the
  texts and areas that are drawn, and the handling of terminal events. Every
  public function carries a `requires`/`ensures` contract over a view of the
  state; the `law_*` proof functions state properties that span several calls.
  Where the handling of an event needs the file system, the library says which
  directories and file it reads (`event_handler::reads_for_event`) and takes
  their contents as arguments.
* `app/` is the program: terminal setup, reading the configuration file and
  directories, drawing with `ratatui`, image previews with `ratatui-image`, and
  the event loop.

`tests/` exercises the library on concrete values.
