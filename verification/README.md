# speak_it

Press-to-talk speech input for Linux X11: hold F8 to record, release it to have
the audio transcribed and the text pasted into the focused window.

- `src/` is the verified library: the hotkey state machine (`session`), the
  environment check and the doctor's report (`report`), the external commands
  and hotkey modifiers (`commands`), recording and transcript file names
  (`paths`), the choice of old recordings to delete (`prune`) and the cleaning
  of transcripts (`text`).
- `app/` is the program around it: command line, logging, processes, files,
  HTTP and the X11 connection.
- `tests/` runs the library on concrete inputs.
