# UP-TAKE

UP-TAKE is a Windows overlay that pins parts of the screen as areas and leaves
them there. This is its engine: a Verus library of the overlay's states, gestures,
menus, exports, settings and words, with contracts that Verus proves. The areas
themselves, the capture and the image encoder are outside it: what they compute is
handed in.

## Layout

- `src/` is the library.
  - `overlay_state`, `overlay`: the three states, what entering each has done,
    what `Esc` backs out of, the frozen view, and the payloads for the page.
  - `placement`, `mouse`, `gesture`, `poll`: the mouse hook, event by event, and
    the poll beside it.
  - `menu`: an area's menu, its child list, and the timing of that list.
  - `precapture`, `output`, `clipboard`, `bitmap`: the frame held during a drag,
    the steps of an export, and the bytes that go on the clipboard.
  - `settings`, `settings_window`, `tray`, `overlay_wndproc`, `strings`: the
    settings and their window, the tray, the window's messages, and the words.
  - `wire`, `json`, `payload_keys`: what the pages are sent, under which keys, and
    the guard on those keys.
  - `area`, `geometry`, `search`, `text`: what the rest is made of.
- `tests/` runs the library on concrete values.
- `app/` is the application around it: the Tauri windows, the Win32 calls, files
  and threads. It performs what the library asks for and hands back what happened.

## How the library is used

State that outlives a call is a plain struct that the caller holds: `HookState`,
`Precapture`, `PumpState`, `Magnifier`, `SettingsStore`. A function takes it by
`&mut`, says in its contract what it becomes, and returns what is to be done as a
list of actions, effects or steps. Where a step can fail, the caller reports how it
went and is told the next one.

Laws that span several functions are public proof functions, named `law_..`, at
the end of the module they are about.
