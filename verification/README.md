# deve_llama_gui

A desktop launcher for the llama.cpp server (`llama-server`): it builds the
server's command line from a launch configuration, starts and stops the
server, shows its output, manages presets of sampling parameters, and talks
five languages in six colour themes.

The logic lives in `src/` and is verified with Verus:

- `language`, `i18n`: the interface languages and the translation table
  (`t` gives the phrase for a key, or the key itself when it names none).
- `theme`: theme names, colours and the widget colours each theme sets.
- `config`: sampling parameters, launch configuration, presets, settings and
  quick commands, with their defaults.
- `command`: the server's arguments and the command preview (both made from
  one list of options), server addresses, the clipboard and browser helpers.
- `text`: decimal numbers, trimming, searching and replacing in text.
- `logs`: cutting the server's output into lines, the bounded log, and what
  the output says about the context size.
- `props`: reading the context size from the server's `/props` answer.
- `presets`: the preset operations as transitions, with their laws.
- `messages`: the log lines the launcher writes.
- `app`: the launcher's state and every operation on it.

`app/` holds the egui window, the server process, the configuration file,
the file dialogs, the clipboard and the browser.
