# niro

The decision logic of Niro, a desktop AI assistant for Windows that answers
through Groq or Gemini and acts on the machine through tools (PowerShell,
windows, keyboard and mouse, files, email, a controlled browser).

The library in `src/` is written in Verus: its functions carry contracts and
are proved against them. The exceptions are the small wrappers around outside
crates, whose contracts are trusted, and the three functions of `abort` over
a std atomic flag, which carry none because the flag's value has no model in
the verifier.

- `guard` — the danger table every model-issued PowerShell command is
  screened against.
- `intercept` — requests answered without a model round-trip (site
  searches, GitHub, notifications, system information, file search) and the
  order in which they are tried.
- `agent` — the tool declarations offered to each model, what a tool call
  turns into, the request loop (key rotation, budget, tool-round cap) and
  what the loop says.
- `tools` — tool results and the exact scripts and reports of each tool.
- `browser` — browser discovery, the DevTools socket protocol and the page
  scripts.
- `email` — send-time parsing, waits and email reports.
- `store` — settings with keychain secrets, tasks, chat history and the
  scheduled-email queue.
- `skills`, `session`, `abort` — skill matching and parsing, agent choice and
  panel behaviour, the stop flag.
- `text`, `lines`, `pattern` — text primitives, line splitting and the
  regular-expression interface.

`tests/` exercises the library on concrete inputs. `app/` is the Tauri shell:
it performs the I/O (HTTP, processes, keychain, settings file, sockets,
notifications) and hands plain values to the library.
