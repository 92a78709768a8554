# miro_pdf

The logic of the miro PDF viewer as a Verus library, with its contracts proved:

- `config`: the configuration language (`Bind`, `MouseBind`, `Set`), its line parser with
  per-line errors, the default bindings and the merge of a user file over the defaults;
- `app_state`, `viewer_input`, `worker`: the decisions of the application, of a document
  viewer's mouse handling and of the rendering worker, as state machines from event to next
  state and action;
- `jumplist`, `recent_files`, `tabs`, `page_layout`: navigation state and page arithmetic;
- `search`, `links`, `hints`, `menu_command`, `menu_bar`, `common_menu`, `document`,
  `shader`: text search, link kinds and targets, link hint labels, menus, outlines and the
  dark-mode pixel shader;
- `geometry`, `text`, `numbers`, `keys`: integer geometry, character helpers, number syntax
  and the key binding dispatcher of the `keybinds` crate.

`app/` is the command around the library: it reads the configuration file and the list of
recent files from `~/.config/miro-pdf`, opens the document given on the command line, and
runs the application's decisions for bindable actions typed on a terminal.
