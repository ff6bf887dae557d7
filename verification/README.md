# co2esp32tg

A Telegram bot that stores air-sensor readings (CO2, humidity, pressure,
temperature) sent over HTTP and answers chat commands with the latest readings
or with charts of their history.

- `src/` is the verified library (Verus): command routing, every text the bot
  sends (MarkdownV2 escaping, report, greeting, chat id), the Bot API requests,
  the rows' insert parameters and the erase statement, the index page, and the
  series each chart is drawn from.
- `app/` is the web service around it: Rocket routes, the SQLite file
  (rusqlite), HTTP calls (reqwest) and chart drawing (plotters, image).
- `tests/` runs the library on concrete values.
